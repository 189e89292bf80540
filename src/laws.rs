//! Facts about resolving names, paths, targets and optimization modes.
use vstd::prelude::*;
use crate::builder::{Build, LibType, Opt, file_suffix, opt_mode, profile_mode, zig_target};
use crate::text::{
    before_char, join_path, last_segment, lemma_before_char_is_prefix, lemma_split_on_concat,
    lemma_split_on_whole,
};

verus! {

/// Without an explicit name, the library is named after the source file's
/// stem: the part of its file name before the first `.`, which holds no `.`
/// and is either the whole file name or followed by a `.` in it.
pub proof fn lemma_default_name_is_stem(b: Build)
    requires
        b.lib_name is None,
        b.file is Some,
    ensures
        ({
            let name = b.spec_lib_name();
            let seg = last_segment(b.file.unwrap()@);
            &&& name == before_char(seg, '.')
            &&& name.len() <= seg.len()
            &&& name == seg.take(name.len() as int)
            &&& forall|j: int| 0 <= j < name.len() ==> name[j] != '.'
            &&& name.len() == seg.len() || seg[name.len() as int] == '.'
        }),
{
    lemma_before_char_is_prefix(last_segment(b.file.unwrap()@), '.');
}

/// The emit path is `lib<name>` under the output directory whatever the kind
/// of library; the kind only chooses the extension added to it, `a` for a
/// static archive and `so` for a shared object.
pub proof fn lemma_emit_path_ignores_kind(b1: Build, b2: Build, out_dir: Seq<char>)
    requires
        b1.file == b2.file,
        b1.lib_name == b2.lib_name,
    ensures
        b1.spec_emit_path(out_dir) == b2.spec_emit_path(out_dir),
        b1.spec_emit_path(out_dir) == join_path(out_dir, "lib"@ + b1.spec_lib_name()),
        file_suffix(LibType::Static) == "a"@,
        file_suffix(LibType::Dynamic) == "so"@,
        forall|target: Seq<char>, mode: Seq<char>|
            #[trigger] b1.spec_args(out_dir, target, mode)[2] == "-femit-bin="@ + b1.spec_emit_path(
                out_dir,
            ) + "."@ + file_suffix(b1.out_type),
{
}

/// Cargo's triple `a-b-c-d` becomes the compiler's `a-c-d`: the vendor is dropped.
pub proof fn lemma_target_drops_vendor(a: Seq<char>, b: Seq<char>, c: Seq<char>, d: Seq<char>)
    requires
        forall|j: int| 0 <= j < a.len() ==> a[j] != '-',
        forall|j: int| 0 <= j < b.len() ==> b[j] != '-',
        forall|j: int| 0 <= j < c.len() ==> c[j] != '-',
        forall|j: int| 0 <= j < d.len() ==> d[j] != '-',
    ensures
        zig_target(a + "-"@ + b + "-"@ + c + "-"@ + d) == Some(a + "-"@ + c + "-"@ + d),
{
    reveal_strlit("-");
    let cd = c.push('-') + d;
    let bcd = b.push('-') + cd;
    let abcd = a.push('-') + bcd;
    assert(a + "-"@ + b + "-"@ + c + "-"@ + d =~= abcd);
    lemma_split_on_whole(a, '-');
    lemma_split_on_whole(b, '-');
    lemma_split_on_whole(c, '-');
    lemma_split_on_whole(d, '-');
    lemma_split_on_concat(c, d, '-');
    lemma_split_on_concat(b, cd, '-');
    lemma_split_on_concat(a, bcd, '-');
    let f = seq![a] + (seq![b] + (seq![c] + seq![d]));
    assert(f.len() == 4);
    assert(f[0] == a && f[1] == b && f[2] == c && f[3] == d);
}

/// The optimization mode depends on the explicit level and the profile alone:
/// an explicit level wins over any profile; the three levels give three
/// different modes; `release` gives the mode of the safe level, `debug` the
/// debug mode, and any other profile is refused.
pub proof fn lemma_profile_resolution(opt: Option<Opt>, profile: Option<Seq<char>>)
    ensures
        opt is Some ==> profile_mode(opt, profile) == Ok::<Seq<char>, crate::builder::BuildError>(
            opt_mode(opt.unwrap()),
        ),
        opt_mode(Opt::Fast) != opt_mode(Opt::Safe),
        opt_mode(Opt::Fast) != opt_mode(Opt::Small),
        opt_mode(Opt::Safe) != opt_mode(Opt::Small),
        profile_mode(None, Some("release"@)) == Ok::<Seq<char>, crate::builder::BuildError>(
            opt_mode(Opt::Safe),
        ),
        profile_mode(None, Some("debug"@)) == Ok::<Seq<char>, crate::builder::BuildError>(
            "Debug"@,
        ),
        "Debug"@ != opt_mode(Opt::Fast) && "Debug"@ != opt_mode(Opt::Safe) && "Debug"@
            != opt_mode(Opt::Small),
        profile is Some && profile.unwrap() != "release"@ && profile.unwrap() != "debug"@ ==> (
        profile_mode(None, profile) is Err),
{
    reveal_strlit("ReleaseFast");
    reveal_strlit("ReleaseSafe");
    reveal_strlit("ReleaseSmall");
    reveal_strlit("Debug");
    reveal_strlit("debug");
    reveal_strlit("release");
    assert("debug"@.len() != "release"@.len());
    assert("ReleaseFast"@[7] != "ReleaseSafe"@[7]);
    assert("ReleaseFast"@[7] != "ReleaseSmall"@[7]);
    assert("ReleaseSafe"@[8] != "ReleaseSmall"@[8]);
    assert("Debug"@.len() != "ReleaseFast"@.len());
    assert("Debug"@.len() != "ReleaseSafe"@.len());
    assert("Debug"@.len() != "ReleaseSmall"@.len());
}

} // verus!
