//! The build description, and how it becomes Cargo directives and a compiler command.
use vstd::prelude::*;
use vstd::string::StringExecFns;
use crate::text::{before_char, file_stem, join_path, last_segment, split_char, split_on, views};

verus! {

/// An optimization level to ask the compiler for.
#[derive(Clone, Copy, Debug, PartialEq, Eq, Structural)]
pub enum Opt {
    Fast,
    Safe,
    Small,
}

/// Whether the library is built as a static archive or as a shared object.
#[derive(Clone, Copy, Debug, PartialEq, Eq, Structural)]
pub enum LibType {
    Static,
    Dynamic,
}

/// Why a build could not be handed to the compiler.
#[derive(Clone, Copy, Debug, PartialEq, Eq, Structural)]
pub enum BuildError {
    /// The source file is set but is not a regular file.
    SourceNotFound,
    /// No output directory was set and Cargo gave none (`OUT_DIR`).
    MissingOutDir,
    /// Cargo gave no target triple (`TARGET`).
    MissingTarget,
    /// The target triple does not have exactly four dash-separated parts.
    MalformedTarget,
    /// No optimization level was set and Cargo gave no profile (`PROFILE`).
    MissingProfile,
    /// The profile is neither `release` nor `debug`.
    UnknownProfile,
}

/// The compiler's name for an optimization level.
pub open spec fn opt_mode(o: Opt) -> Seq<char> {
    match o {
        Opt::Fast => "ReleaseFast"@,
        Opt::Safe => "ReleaseSafe"@,
        Opt::Small => "ReleaseSmall"@,
    }
}

/// The link kind announced to Cargo.
pub open spec fn cargo_kind(t: LibType) -> Seq<char> {
    match t {
        LibType::Static => "static"@,
        LibType::Dynamic => "dynlib"@,
    }
}

/// The compiler's flag word for the kind of library.
pub open spec fn zig_kind(t: LibType) -> Seq<char> {
    match t {
        LibType::Static => "static"@,
        LibType::Dynamic => "dynamic"@,
    }
}

/// The file extension of the built library.
pub open spec fn file_suffix(t: LibType) -> Seq<char> {
    match t {
        LibType::Static => "a"@,
        LibType::Dynamic => "so"@,
    }
}

/// Cargo's four-part target triple `arch-vendor-os-env` rewritten as the
/// compiler's `arch-os-env`; nothing when it does not have four parts.
pub open spec fn zig_target(triple: Seq<char>) -> Option<Seq<char>> {
    let f = split_on(triple, '-');
    if f.len() == 4 {
        Some(f[0] + "-"@ + f[2] + "-"@ + f[3])
    } else {
        None
    }
}

/// The optimization mode: an explicit level wins; otherwise the `release`
/// profile asks for the safe release mode and `debug` for the debug mode.
pub open spec fn profile_mode(opt: Option<Opt>, profile: Option<Seq<char>>) -> Result<
    Seq<char>,
    BuildError,
> {
    match opt {
        Some(o) => Ok(opt_mode(o)),
        None => match profile {
            None => Err(BuildError::MissingProfile),
            Some(p) => if p == "release"@ {
                Ok("ReleaseSafe"@)
            } else if p == "debug"@ {
                Ok("Debug"@)
            } else {
                Err(BuildError::UnknownProfile)
            },
        },
    }
}

pub open spec fn view_opt(o: Option<String>) -> Option<Seq<char>> {
    match o {
        Some(s) => Some(s@),
        None => None,
    }
}

impl Opt {
    /// The compiler's name for this level.
    pub fn mode(&self) -> (r: String)
        ensures
            r@ == opt_mode(*self),
    {
        match self {
            Opt::Fast => String::from_str("ReleaseFast"),
            Opt::Safe => String::from_str("ReleaseSafe"),
            Opt::Small => String::from_str("ReleaseSmall"),
        }
    }
}

/// Rewrites Cargo's target triple for the compiler: `x86_64-unknown-linux-gnu`
/// becomes `x86_64-linux-gnu`.
pub fn match_target(triple: &str) -> (r: Option<String>)
    ensures
        view_opt(r) == zig_target(triple@),
{
    let fields = split_char(triple, '-');
    proof {
        assert(views(fields@).len() == fields@.len());
    }
    if fields.len() != 4 {
        return None;
    }
    proof {
        assert(views(fields@)[0] == fields@[0]@);
        assert(views(fields@)[2] == fields@[2]@);
        assert(views(fields@)[3] == fields@[3]@);
    }
    let mut t = fields[0].clone();
    t.append("-");
    t.append(fields[2].as_str());
    t.append("-");
    t.append(fields[3].as_str());
    Some(t)
}

/// What Cargo tells a build script through its environment.
pub struct HostContext {
    /// `OUT_DIR`
    pub out_dir: Option<String>,
    /// `TARGET`
    pub target: Option<String>,
    /// `PROFILE`
    pub profile: Option<String>,
}

/// What is to be compiled, and how.
pub struct Build {
    /// The source file to compile.
    pub file: Option<String>,
    /// The library's name; the source file's stem when not set.
    pub lib_name: Option<String>,
    /// Extra compiler flags, in the order they were given.
    pub flags: Vec<String>,
    /// Where the library and the compiler's cache go; Cargo's `OUT_DIR` when not set.
    pub out_dir: Option<String>,
    pub out_type: LibType,
    /// The optimization level; taken from Cargo's profile when not set.
    pub optimiziation: Option<Opt>,
    /// Whether the directives are also written to a log file in the output directory.
    pub log: bool,
    /// Whether the compiler is told to give the library the shared-object name
    /// `lib<name>.<extension>`.
    pub soname_override: bool,
    /// Whether the compiler is given Cargo's target, rewritten for it; when not,
    /// the compiler builds for its own default target.
    pub select_target: bool,
}

impl Build {
    /// The library's name: the one set, or else the stem of the source file's name.
    pub open spec fn spec_lib_name(&self) -> Seq<char> {
        match self.lib_name {
            Some(n) => n@,
            None => before_char(last_segment(self.file.unwrap()@), '.'),
        }
    }

    /// Whether the library's name can be worked out.
    pub open spec fn name_known(&self) -> bool {
        self.lib_name is Some || self.file is Some
    }

    /// The output directory: the one set, or else Cargo's.
    pub open spec fn spec_out_dir(&self, ctx: HostContext) -> Option<Seq<char>> {
        match self.out_dir {
            Some(d) => Some(d@),
            None => view_opt(ctx.out_dir),
        }
    }

    /// Where the library is written, without its file extension.
    pub open spec fn spec_emit_path(&self, out_dir: Seq<char>) -> Seq<char> {
        join_path(out_dir, "lib"@ + self.spec_lib_name())
    }

    pub fn new() -> (r: Build)
        ensures
            r.file is None,
            r.lib_name is None,
            r.flags@.len() == 0,
            r.out_dir is None,
            r.out_type == LibType::Dynamic,
            r.optimiziation is None,
            !r.log,
            r.soname_override,
            r.select_target,
    {
        Build {
            file: None,
            lib_name: None,
            flags: Vec::new(),
            out_dir: None,
            out_type: LibType::Dynamic,
            optimiziation: None,
            log: false,
            soname_override: true,
            select_target: true,
        }
    }

    /// Asks for the directives to be written to a log file as well.
    pub fn log(self, log: bool) -> (r: Build)
        ensures
            r.log == log,
            r == (Build { log: r.log, ..self }),
    {
        Build { log, ..self }
    }

    /// Sets the source file to compile.
    pub fn file(self, p: &str) -> (r: Build)
        ensures
            r.file is Some,
            r.file.unwrap()@ == p@,
            r == (Build { file: r.file, ..self }),
    {
        Build { file: Some(String::from_str(p)), ..self }
    }

    /// Sets the library's name.
    pub fn lib_name(self, p: &str) -> (r: Build)
        ensures
            r.lib_name is Some,
            r.lib_name.unwrap()@ == p@,
            r == (Build { lib_name: r.lib_name, ..self }),
    {
        Build { lib_name: Some(String::from_str(p)), ..self }
    }

    /// Sets the output directory.
    pub fn out_dir(self, p: &str) -> (r: Build)
        ensures
            r.out_dir is Some,
            r.out_dir.unwrap()@ == p@,
            r == (Build { out_dir: r.out_dir, ..self }),
    {
        Build { out_dir: Some(String::from_str(p)), ..self }
    }

    /// Adds compiler flags after those already given.
    pub fn flags(self, f: Vec<String>) -> (r: Build)
        ensures
            r.flags@ == self.flags@ + f@,
            r == (Build { flags: r.flags, ..self }),
    {
        let mut build = self;
        let mut f = f;
        build.flags.append(&mut f);
        build
    }

    pub fn as_static(self) -> (r: Build)
        ensures
            r == (Build { out_type: LibType::Static, ..self }),
    {
        Build { out_type: LibType::Static, ..self }
    }

    pub fn as_dynlib(self) -> (r: Build)
        ensures
            r == (Build { out_type: LibType::Dynamic, ..self }),
    {
        Build { out_type: LibType::Dynamic, ..self }
    }

    /// Chooses whether the compiler is told the library's shared-object name.
    pub fn soname_override(self, on: bool) -> (r: Build)
        ensures
            r == (Build { soname_override: on, ..self }),
    {
        Build { soname_override: on, ..self }
    }

    /// Chooses whether the compiler is given Cargo's target.
    pub fn select_target(self, on: bool) -> (r: Build)
        ensures
            r == (Build { select_target: on, ..self }),
    {
        Build { select_target: on, ..self }
    }

    /// Sets the optimization level; without one it follows Cargo's profile.
    pub fn optimiziation(self, opt: Opt) -> (r: Build)
        ensures
            r == (Build { optimiziation: Some(opt), ..self }),
    {
        Build { optimiziation: Some(opt), ..self }
    }

    /// The library's name.
    pub fn get_lib_name(&self) -> (r: String)
        requires
            self.name_known(),
        ensures
            r@ == self.spec_lib_name(),
    {
        match &self.lib_name {
            Some(n) => n.clone(),
            None => {
                let file = self.file.as_ref().unwrap();
                file_stem(file.as_str())
            },
        }
    }

    /// The output directory, if it is known.
    pub fn get_out_dir(&self, ctx: &HostContext) -> (r: Option<String>)
        ensures
            view_opt(r) == self.spec_out_dir(*ctx),
    {
        match &self.out_dir {
            Some(d) => Some(d.clone()),
            None => match &ctx.out_dir {
                Some(d) => Some(d.clone()),
                None => None,
            },
        }
    }

    /// Where the library is written, without its file extension; the same for
    /// both kinds of library.
    pub fn get_emit_path(&self, ctx: &HostContext) -> (r: Option<String>)
        requires
            self.name_known(),
        ensures
            r is Some <==> self.spec_out_dir(*ctx) is Some,
            r is Some ==> r.unwrap()@ == self.spec_emit_path(self.spec_out_dir(*ctx).unwrap()),
    {
        match self.get_out_dir(ctx) {
            None => None,
            Some(d) => {
                let mut name = String::from_str("lib");
                let lib_name = self.get_lib_name();
                name.append(lib_name.as_str());
                Some(join(d.as_str(), name.as_str()))
            },
        }
    }

    pub fn get_cargo_out_type(&self) -> (r: String)
        ensures
            r@ == cargo_kind(self.out_type),
    {
        match self.out_type {
            LibType::Static => String::from_str("static"),
            LibType::Dynamic => String::from_str("dynlib"),
        }
    }

    pub fn get_zig_out_type(&self) -> (r: String)
        ensures
            r@ == zig_kind(self.out_type),
    {
        match self.out_type {
            LibType::Static => String::from_str("static"),
            LibType::Dynamic => String::from_str("dynamic"),
        }
    }

    pub fn get_lib_ft(&self) -> (r: String)
        ensures
            r@ == file_suffix(self.out_type),
    {
        match self.out_type {
            LibType::Static => String::from_str("a"),
            LibType::Dynamic => String::from_str("so"),
        }
    }

    /// The optimization mode to ask the compiler for.
    pub fn match_profile(&self, ctx: &HostContext) -> (r: Result<String, BuildError>)
        ensures
            match (r, profile_mode(self.optimiziation, view_opt(ctx.profile))) {
                (Ok(m), Ok(s)) => m@ == s,
                (Err(e), Err(f)) => e == f,
                _ => false,
            },
    {
        if let Some(opt) = &self.optimiziation {
            return Ok(opt.mode());
        }
        match &ctx.profile {
            None => Err(BuildError::MissingProfile),
            Some(p) => {
                let release = String::from_str("release");
                let debug = String::from_str("debug");
                if p.eq(&release) {
                    Ok(String::from_str("ReleaseSafe"))
                } else if p.eq(&debug) {
                    Ok(String::from_str("Debug"))
                } else {
                    Err(BuildError::UnknownProfile)
                }
            },
        }
    }
}

/// `name` placed under the directory `dir`.
pub fn join(dir: &str, name: &str) -> (r: String)
    ensures
        r@ == join_path(dir@, name@),
{
    let n = dir.unicode_len();
    let mut r = String::from_str(dir);
    if n > 0 && dir.get_char(n - 1) == '/' {
        r.append(name);
    } else {
        if n > 0 {
            proof {
                reveal_strlit("/");
            }
            r.append("/");
        }
        r.append(name);
    }
    r
}

/// Tells Cargo where to look for the library.
pub open spec fn search_directive(out_dir: Seq<char>) -> Seq<char> {
    "cargo:rustc-link-search=native="@ + out_dir
}

/// Tells Cargo which library to link, and how.
pub open spec fn link_directive(kind: LibType, name: Seq<char>) -> Seq<char> {
    "cargo:rustc-link-lib="@ + cargo_kind(kind) + "="@ + name
}

/// Tells Cargo to run the build script again when the source changes.
pub open spec fn rerun_directive(file: Seq<char>) -> Seq<char> {
    "cargo:rustc-rerun-if-changed="@ + file
}

/// The compiler command, once everything it needs is known.
pub struct Invocation {
    /// The directives to print for Cargo, in order, before the compiler runs.
    pub announcements: Vec<String>,
    /// The program to run.
    pub program: String,
    /// Its arguments.
    pub args: Vec<String>,
    /// The log file to copy the directives to, when logging was asked for.
    pub log_file: Option<String>,
}

/// What finishing a build comes to.
pub enum Finish {
    /// No source file was set: there is nothing to do.
    Skipped,
    /// The build cannot go ahead.
    Aborted(BuildError),
    /// Print the directives, then replace this process with the compiler.
    Delegate(Invocation),
}

impl Build {
    /// The three directives for Cargo, in the order they are printed.
    pub open spec fn spec_announcements(&self, out_dir: Seq<char>) -> Seq<Seq<char>> {
        seq![
            search_directive(out_dir),
            link_directive(self.out_type, self.spec_lib_name()),
            rerun_directive(self.file.unwrap()@),
        ]
    }

    /// The compiler's arguments: the fixed ones, then the extra flags in the
    /// order they were given, then the source file.
    pub open spec fn spec_args(&self, out_dir: Seq<char>, target: Seq<char>, mode: Seq<char>) -> Seq<
        Seq<char>,
    > {
        let ft = file_suffix(self.out_type);
        seq![
            "build-lib"@,
            "-"@ + zig_kind(self.out_type),
            "-femit-bin="@ + self.spec_emit_path(out_dir) + "."@ + ft,
        ] + (if self.soname_override {
            seq!["-fsoname=lib"@ + self.spec_lib_name() + "."@ + ft]
        } else {
            Seq::empty()
        }) + seq!["--cache-dir"@, out_dir] + (if self.select_target {
            seq!["-target"@, target]
        } else {
            Seq::empty()
        }) + seq!["-O"@, mode] + views(self.flags@) + seq![self.file.unwrap()@]
    }

    /// Why a build with a source file cannot go ahead, checked in this order;
    /// nothing when it can.
    pub open spec fn spec_error(&self, ctx: HostContext, source_is_file: bool) -> Option<BuildError> {
        if !source_is_file {
            Some(BuildError::SourceNotFound)
        } else if self.spec_out_dir(ctx) is None {
            Some(BuildError::MissingOutDir)
        } else if self.select_target && ctx.target is None {
            Some(BuildError::MissingTarget)
        } else if self.select_target && zig_target(ctx.target.unwrap()@) is None {
            Some(BuildError::MalformedTarget)
        } else {
            match profile_mode(self.optimiziation, view_opt(ctx.profile)) {
                Err(e) => Some(e),
                Ok(_) => None,
            }
        }
    }

    /// `inv` is the compiler command for this build, given that it can go ahead.
    pub open spec fn plans(&self, inv: Invocation, ctx: HostContext) -> bool {
        let out_dir = self.spec_out_dir(ctx).unwrap();
        let target = if self.select_target {
            zig_target(ctx.target.unwrap()@).unwrap()
        } else {
            Seq::empty()
        };
        let mode = match profile_mode(self.optimiziation, view_opt(ctx.profile)) {
            Ok(m) => m,
            Err(_) => Seq::empty(),
        };
        &&& views(inv.announcements@) == self.spec_announcements(out_dir)
        &&& inv.program@ == "zig"@
        &&& views(inv.args@) == self.spec_args(out_dir, target, mode)
        &&& view_opt(inv.log_file) == if self.log {
            Some(join_path(out_dir, "logs.txt"@))
        } else {
            None
        }
    }

    /// Cargo's directive for where to look for the library.
    pub fn cargo_search_dir(out_dir: &str) -> (r: String)
        ensures
            r@ == search_directive(out_dir@),
    {
        let mut r = String::from_str("cargo:rustc-link-search=native=");
        r.append(out_dir);
        r
    }

    /// Cargo's directive for which library to link, and how.
    pub fn cargo_lib_name(&self) -> (r: String)
        requires
            self.name_known(),
        ensures
            r@ == link_directive(self.out_type, self.spec_lib_name()),
    {
        let mut r = String::from_str("cargo:rustc-link-lib=");
        let kind = self.get_cargo_out_type();
        r.append(kind.as_str());
        r.append("=");
        let name = self.get_lib_name();
        r.append(name.as_str());
        r
    }

    /// Cargo's directive to run the build script again when the source changes.
    pub fn rerun_pref(&self) -> (r: String)
        requires
            self.file is Some,
        ensures
            r@ == rerun_directive(self.file.unwrap()@),
    {
        let mut r = String::from_str("cargo:rustc-rerun-if-changed=");
        r.append(self.file.as_ref().unwrap().as_str());
        r
    }

    /// Works out what finishing this build does, given the facts Cargo gave and
    /// whether the source file is a regular file on disk. Without a source file
    /// nothing is done; a missing source file or missing or unusable facts from
    /// Cargo stop the build before anything is announced; otherwise the result
    /// holds the directives and the compiler command.
    pub fn finish(self, ctx: &HostContext, source_is_file: bool) -> (r: Finish)
        ensures
            self.file is None ==> r is Skipped,
            self.file is Some && !source_is_file ==> r == Finish::Aborted(BuildError::SourceNotFound),
            self.file is Some && self.spec_error(*ctx, source_is_file) is Some ==> r == Finish::Aborted(
                self.spec_error(*ctx, source_is_file).unwrap(),
            ),
            self.file is Some && self.spec_error(*ctx, source_is_file) is None ==> match r {
                Finish::Delegate(inv) => self.plans(inv, *ctx),
                _ => false,
            },
    {
        let file = match &self.file {
            None => return Finish::Skipped,
            Some(f) => f.clone(),
        };
        if !source_is_file {
            return Finish::Aborted(BuildError::SourceNotFound);
        }
        let out_dir = match self.get_out_dir(ctx) {
            None => return Finish::Aborted(BuildError::MissingOutDir),
            Some(d) => d,
        };
        let target = if self.select_target {
            match &ctx.target {
                None => return Finish::Aborted(BuildError::MissingTarget),
                Some(t) => match match_target(t.as_str()) {
                    None => return Finish::Aborted(BuildError::MalformedTarget),
                    Some(z) => z,
                },
            }
        } else {
            String::new()
        };
        let mode = match self.match_profile(ctx) {
            Err(e) => return Finish::Aborted(e),
            Ok(m) => m,
        };
        let announcements = vec![
            Build::cargo_search_dir(out_dir.as_str()),
            self.cargo_lib_name(),
            self.rerun_pref(),
        ];

        let name = self.get_lib_name();
        let ft = self.get_lib_ft();
        let mut kind_flag = String::from_str("-");
        kind_flag.append(self.get_zig_out_type().as_str());
        let mut lib_file = String::from_str("lib");
        lib_file.append(name.as_str());
        let mut emit = String::from_str("-femit-bin=");
        emit.append(join(out_dir.as_str(), lib_file.as_str()).as_str());
        emit.append(".");
        emit.append(ft.as_str());
        let mut soname = String::from_str("-fsoname=lib");
        soname.append(name.as_str());
        soname.append(".");
        soname.append(ft.as_str());
        let ghost expected = self.spec_args(out_dir@, target@, mode@);
        let mut args = vec![String::from_str("build-lib"), kind_flag, emit];
        if self.soname_override {
            args.push(soname);
        }
        args.push(String::from_str("--cache-dir"));
        args.push(out_dir.clone());
        if self.select_target {
            args.push(String::from_str("-target"));
            args.push(target);
        }
        args.push(String::from_str("-O"));
        args.push(mode);
        let ghost fixed = views(args@);
        let mut flags = self.flags.clone();
        proof {
            assert(flags@ == self.flags@);
        }
        args.append(&mut flags);
        args.push(file);
        proof {
            assert(views(args@) =~= expected);
        }
        let log_file = if self.log {
            Some(join(out_dir.as_str(), "logs.txt"))
        } else {
            None
        };
        let inv = Invocation {
            announcements,
            program: String::from_str("zig"),
            args,
            log_file,
        };
        proof {
            assert(views(inv.announcements@) =~= self.spec_announcements(out_dir@));
        }
        Finish::Delegate(inv)
    }
}

} // verus!
