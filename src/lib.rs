//! Drives an ahead-of-time Zig compilation from a Cargo build script.
//!
//! A `Build` collects what should be compiled; `Build::finish` turns it,
//! together with the facts Cargo hands the build script, into the lines to
//! announce to Cargo and the compiler command to run.
pub mod builder;
pub mod laws;
pub mod text;

pub use builder::{Build, BuildError, Finish, HostContext, Invocation, LibType, Opt};
