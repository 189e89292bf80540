use zigbuild::builder::{join, match_target};
use zigbuild::text::{file_stem, split_char};
use zigbuild::{Build, BuildError, Finish, HostContext, Invocation, Opt};

fn ctx(out_dir: Option<&str>, target: Option<&str>, profile: Option<&str>) -> HostContext {
    HostContext {
        out_dir: out_dir.map(String::from),
        target: target.map(String::from),
        profile: profile.map(String::from),
    }
}

fn cargo_ctx() -> HostContext {
    ctx(Some("/tmp/out"), Some("aarch64-apple-darwin-none"), Some("release"))
}

fn delegated(f: Finish) -> Invocation {
    match f {
        Finish::Delegate(inv) => inv,
        _ => panic!("expected the compiler to be run"),
    }
}

fn aborted(f: Finish) -> BuildError {
    match f {
        Finish::Aborted(e) => e,
        _ => panic!("expected the build to stop"),
    }
}

#[test]
fn it_works() {
    let lib_path = "./src/main.zig";
    let joined = join("./deps/", &file_stem(lib_path));
    println!("buffer: {}", joined);
    assert_eq!(joined, "./deps/main");
}

#[test]
fn stem_stops_at_first_dot() {
    assert_eq!(file_stem("main.zig"), "main");
    assert_eq!(file_stem("foo.release.zig"), "foo");
    assert_eq!(file_stem("./src/main.zig"), "main");
    assert_eq!(file_stem("lib/a.b"), "a");
}

#[test]
fn stem_without_dot_is_whole_name() {
    assert_eq!(file_stem("src/plain"), "plain");
    assert_eq!(file_stem("plain"), "plain");
    assert_eq!(file_stem(""), "");
}

#[test]
fn stem_of_hidden_file_is_empty() {
    assert_eq!(file_stem("dir/.hidden"), "");
}

#[test]
fn lib_name_explicit_wins() {
    let b = Build::new().file("./src/main.zig").lib_name("custom");
    assert_eq!(b.get_lib_name(), "custom");
    let b = Build::new().file("./src/foo.release.zig");
    assert_eq!(b.get_lib_name(), "foo");
}

#[test]
fn emit_path_same_for_both_kinds() {
    let c = cargo_ctx();
    let s = Build::new().file("./src/main.zig").as_static();
    let d = Build::new().file("./src/main.zig").as_dynlib();
    assert_eq!(s.get_emit_path(&c), Some("/tmp/out/libmain".to_string()));
    assert_eq!(d.get_emit_path(&c), Some("/tmp/out/libmain".to_string()));
    assert_eq!(s.get_lib_ft(), "a");
    assert_eq!(d.get_lib_ft(), "so");
}

#[test]
fn emit_path_unknown_without_out_dir() {
    let b = Build::new().file("main.zig");
    assert_eq!(b.get_emit_path(&ctx(None, None, None)), None);
}

#[test]
fn explicit_out_dir_wins() {
    let b = Build::new().file("main.zig").out_dir("/build/here/");
    let c = cargo_ctx();
    assert_eq!(b.get_out_dir(&c), Some("/build/here/".to_string()));
    assert_eq!(b.get_emit_path(&c), Some("/build/here/libmain".to_string()));
}

#[test]
fn join_puts_one_slash() {
    assert_eq!(join("/tmp/out", "x"), "/tmp/out/x");
    assert_eq!(join("/tmp/out/", "x"), "/tmp/out/x");
    assert_eq!(join("", "x"), "x");
}

#[test]
fn target_drops_vendor() {
    assert_eq!(match_target("x86_64-unknown-linux-gnu"), Some("x86_64-linux-gnu".to_string()));
    assert_eq!(match_target("aarch64-apple-darwin-none"), Some("aarch64-darwin-none".to_string()));
}

#[test]
fn target_needs_four_parts() {
    assert_eq!(match_target("aarch64-apple-darwin"), None);
    assert_eq!(match_target("a-b-c-d-e"), None);
    assert_eq!(match_target(""), None);
}

#[test]
fn split_keeps_empty_pieces() {
    assert_eq!(split_char("a--b-", '-'), vec!["a", "", "b", ""]);
    assert_eq!(split_char("", '-'), vec![""]);
}

#[test]
fn optimization_levels_map_to_modes() {
    assert_eq!(Opt::Fast.mode(), "ReleaseFast");
    assert_eq!(Opt::Safe.mode(), "ReleaseSafe");
    assert_eq!(Opt::Small.mode(), "ReleaseSmall");
}

#[test]
fn explicit_level_wins_over_profile() {
    let b = Build::new().optimiziation(Opt::Small);
    assert_eq!(b.match_profile(&ctx(None, None, Some("debug"))), Ok("ReleaseSmall".to_string()));
    assert_eq!(b.match_profile(&ctx(None, None, Some("weird"))), Ok("ReleaseSmall".to_string()));
    assert_eq!(b.match_profile(&ctx(None, None, None)), Ok("ReleaseSmall".to_string()));
}

#[test]
fn profile_decides_without_level() {
    let b = Build::new();
    assert_eq!(b.match_profile(&ctx(None, None, Some("release"))), Ok(Opt::Safe.mode()));
    assert_eq!(b.match_profile(&ctx(None, None, Some("debug"))), Ok("Debug".to_string()));
    assert_eq!(b.match_profile(&ctx(None, None, Some("bench"))), Err(BuildError::UnknownProfile));
    assert_eq!(b.match_profile(&ctx(None, None, None)), Err(BuildError::MissingProfile));
}

#[test]
fn flags_are_appended_in_order() {
    let b = Build::new()
        .flags(vec!["-a".to_string(), "-b".to_string()])
        .flags(vec!["-a".to_string()]);
    assert_eq!(b.flags, vec!["-a", "-b", "-a"]);
}

#[test]
fn finish_without_source_skips() {
    assert!(matches!(Build::new().finish(&cargo_ctx(), true), Finish::Skipped));
    assert!(matches!(Build::new().finish(&ctx(None, None, None), false), Finish::Skipped));
}

#[test]
fn finish_with_missing_source_stops() {
    let b = Build::new().file("./src/missing.zig");
    assert_eq!(aborted(b.finish(&cargo_ctx(), false)), BuildError::SourceNotFound);
}

#[test]
fn finish_reports_missing_facts() {
    let b = || Build::new().file("./src/main.zig");
    let t = Some("x86_64-unknown-linux-gnu");
    assert_eq!(aborted(b().finish(&ctx(None, t, Some("debug")), true)), BuildError::MissingOutDir);
    assert_eq!(aborted(b().finish(&ctx(Some("/o"), None, Some("debug")), true)), BuildError::MissingTarget);
    assert_eq!(
        aborted(b().finish(&ctx(Some("/o"), Some("x86_64-linux"), Some("debug")), true)),
        BuildError::MalformedTarget
    );
    assert_eq!(aborted(b().finish(&ctx(Some("/o"), t, None), true)), BuildError::MissingProfile);
    assert_eq!(aborted(b().finish(&ctx(Some("/o"), t, Some("bench")), true)), BuildError::UnknownProfile);
}

#[test]
fn finish_end_to_end() {
    let inv = delegated(Build::new().file("./src/main.zig").finish(&cargo_ctx(), true));
    assert_eq!(
        inv.announcements,
        vec![
            "cargo:rustc-link-search=native=/tmp/out",
            "cargo:rustc-link-lib=dynlib=main",
            "cargo:rustc-rerun-if-changed=./src/main.zig",
        ]
    );
    assert_eq!(inv.program, "zig");
    assert_eq!(
        inv.args,
        vec![
            "build-lib",
            "-dynamic",
            "-femit-bin=/tmp/out/libmain.so",
            "-fsoname=libmain.so",
            "--cache-dir",
            "/tmp/out",
            "-target",
            "aarch64-darwin-none",
            "-O",
            "ReleaseSafe",
            "./src/main.zig",
        ]
    );
    assert_eq!(inv.log_file, None);
}

#[test]
fn finish_static_named_with_log() {
    let b = Build::new()
        .file("zig/thing.zig")
        .lib_name("other")
        .as_static()
        .optimiziation(Opt::Fast)
        .log(true);
    let inv = delegated(b.finish(&ctx(Some("/o/"), Some("x86_64-unknown-linux-gnu"), Some("debug")), true));
    assert_eq!(inv.announcements[1], "cargo:rustc-link-lib=static=other");
    assert_eq!(inv.args[1], "-static");
    assert_eq!(inv.args[2], "-femit-bin=/o/libother.a");
    assert_eq!(inv.args[3], "-fsoname=libother.a");
    assert_eq!(inv.args[7], "x86_64-linux-gnu");
    assert_eq!(inv.args[9], "ReleaseFast");
    assert_eq!(inv.log_file, Some("/o/logs.txt".to_string()));
}

#[test]
fn stem_passes_over_trailing_components() {
    assert_eq!(file_stem("src/main.zig/"), "main");
    assert_eq!(file_stem("src/main.zig/."), "main");
    assert_eq!(file_stem("src/main.zig/./"), "main");
    assert_eq!(file_stem("src//main.zig//"), "main");
}

#[test]
fn finish_passes_flags_before_source() {
    let b = Build::new()
        .file("./src/main.zig")
        .flags(vec!["#".to_string(), "-lc".to_string()])
        .flags(vec!["#".to_string()]);
    let inv = delegated(b.finish(&cargo_ctx(), true));
    assert_eq!(inv.args.len(), 14);
    assert_eq!(&inv.args[10..], &["#", "-lc", "#", "./src/main.zig"]);
}

#[test]
fn finish_without_soname_or_target() {
    let b = Build::new()
        .file("./src/main.zig")
        .soname_override(false)
        .select_target(false);
    let inv = delegated(b.finish(&ctx(Some("/tmp/out"), None, Some("debug")), true));
    assert_eq!(
        inv.args,
        vec![
            "build-lib",
            "-dynamic",
            "-femit-bin=/tmp/out/libmain.so",
            "--cache-dir",
            "/tmp/out",
            "-O",
            "Debug",
            "./src/main.zig",
        ]
    );
}

#[test]
fn unselected_target_is_not_checked() {
    let b = Build::new().file("./src/main.zig").select_target(false);
    let inv = delegated(b.finish(&ctx(Some("/o"), Some("bad"), Some("release")), true));
    assert!(!inv.args.iter().any(|a| a == "-target"));
    assert!(inv.args.iter().any(|a| a == "-fsoname=libmain.so"));
}
