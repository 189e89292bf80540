//! Character-level helpers on paths and dash-separated names.
use vstd::prelude::*;
use vstd::string::StrSliceExecFns;
use vstd::string::StringExecFns;
use osstrtools::OsStrTools;
use std::path::Path;

verus! {

/// The characters of `s` before the first `c`; all of `s` when `c` does not occur.
pub open spec fn before_char(s: Seq<char>, c: char) -> Seq<char>
    decreases s.len(),
{
    if s.len() == 0 {
        s
    } else if s[0] == c {
        Seq::empty()
    } else {
        seq![s[0]] + before_char(s.drop_first(), c)
    }
}

/// The characters of `s` after the last `c`; all of `s` when `c` does not occur.
pub open spec fn after_last(s: Seq<char>, c: char) -> Seq<char>
    decreases s.len(),
{
    if s.len() == 0 {
        s
    } else if s.last() == c {
        Seq::empty()
    } else {
        after_last(s.drop_last(), c).push(s.last())
    }
}

/// The pieces of `s` between occurrences of `sep`, as `str::split` gives them:
/// always at least one piece, empty pieces kept.
pub open spec fn split_on(s: Seq<char>, sep: char) -> Seq<Seq<char>>
    decreases s.len(),
{
    if s.len() == 0 {
        seq![Seq::empty()]
    } else {
        let init = split_on(s.drop_last(), sep);
        if s.last() == sep {
            init.push(Seq::empty())
        } else {
            init.update(init.len() - 1, init.last().push(s.last()))
        }
    }
}

/// `p` without trailing separators and trailing `.` components: `a/b/`,
/// `a/b/.` and `a/b/./` all become `a/b`.
pub open spec fn trim_tail(p: Seq<char>) -> Seq<char>
    decreases p.len(),
{
    if p.len() > 0 && p.last() == '/' {
        trim_tail(p.drop_last())
    } else if p.len() >= 2 && p.last() == '.' && p[p.len() - 2] == '/' {
        trim_tail(p.drop_last().drop_last())
    } else {
        p
    }
}

/// The last segment of a `/`-separated path, read as `Path::file_name` reads
/// it: trailing separators and trailing `.` components are passed over, so
/// `src/main.zig/.` ends in `main.zig`.
pub open spec fn last_segment(p: Seq<char>) -> Seq<char> {
    after_last(trim_tail(p), '/')
}

/// `name` placed under the directory `dir`, with one `/` between them.
pub open spec fn join_path(dir: Seq<char>, name: Seq<char>) -> Seq<char> {
    if dir.len() == 0 || dir.last() == '/' {
        dir + name
    } else {
        dir + seq!['/'] + name
    }
}

/// The text of each string in `v`.
pub open spec fn views(v: Seq<String>) -> Seq<Seq<char>> {
    v.map_values(|x: String| x@)
}

proof fn lemma_before_char(s: Seq<char>, c: char, i: int)
    requires
        0 <= i <= s.len(),
        forall|j: int| 0 <= j < i ==> s[j] != c,
        i == s.len() || s[i] == c,
    ensures
        before_char(s, c) == s.take(i),
    decreases i,
{
    if i == 0 {
        if s.len() == 0 {
            assert(s =~= s.take(0));
        }
    } else {
        lemma_before_char(s.drop_first(), c, i - 1);
        assert(seq![s[0]] + s.drop_first().take(i - 1) =~= s.take(i));
    }
}

proof fn lemma_after_last(s: Seq<char>, c: char, i: int)
    requires
        0 <= i <= s.len(),
        forall|j: int| i <= j < s.len() ==> s[j] != c,
        i == 0 || s[i - 1] == c,
    ensures
        after_last(s, c) == s.subrange(i, s.len() as int),
    decreases s.len() - i,
{
    if i == s.len() {
        if s.len() == 0 {
            assert(s =~= s.subrange(0, 0));
        } else {
            assert(s.subrange(i, s.len() as int) =~= Seq::<char>::empty());
        }
    } else {
        lemma_after_last(s.drop_last(), c, i);
        assert(s.drop_last().subrange(i, s.len() - 1).push(s.last())
            =~= s.subrange(i, s.len() as int));
    }
}

/// What `before_char` gives, character by character: a prefix free of `c`
/// that is either all of `s` or followed by `c`.
pub proof fn lemma_before_char_is_prefix(s: Seq<char>, c: char)
    ensures
        before_char(s, c).len() <= s.len(),
        before_char(s, c) == s.take(before_char(s, c).len() as int),
        forall|j: int| 0 <= j < before_char(s, c).len() ==> before_char(s, c)[j] != c,
        before_char(s, c).len() == s.len() || s[before_char(s, c).len() as int] == c,
    decreases s.len(),
{
    if s.len() == 0 {
        assert(s =~= s.take(0));
    } else if s[0] != c {
        lemma_before_char_is_prefix(s.drop_first(), c);
        assert(seq![s[0]] + s.drop_first().take(before_char(s.drop_first(), c).len() as int)
            =~= s.take(before_char(s, c).len() as int));
    }
}

/// Relies on `OsStrTools::split` of osstrtools, which gives one piece for each
/// occurrence of the pattern, the text between it and the occurrence before:
/// no pieces when the pattern does not occur, and otherwise a first piece
/// that is the text before the first occurrence. The pattern is one ASCII
/// character, so splitting the bytes splits the characters at the same places.
#[verifier::external_body]
fn split_os(s: &str, pat: &str) -> (r: Vec<String>)
    requires
        pat@.len() == 1,
        (pat@[0] as u32) < 128,
    ensures
        r@.len() == 0 <==> (forall|j: int| 0 <= j < s@.len() ==> s@[j] != pat@[0]),
        r@.len() > 0 ==> r@[0]@ == before_char(s@, pat@[0]),
{
    let pieces = Path::new(s).as_os_str().split(Path::new(pat).as_os_str());
    pieces.iter().map(|p| p.to_string_lossy().into_owned()).collect()
}

/// The file name of `path` up to its first `.`: `./src/main.zig` gives `main`,
/// `foo.release.zig` gives `foo`.
pub fn file_stem(path: &str) -> (r: String)
    ensures
        r@ == before_char(last_segment(path@), '.'),
{
    let len = path.unicode_len();
    let mut n: usize = len;
    proof {
        assert(path@.take(len as int) =~= path@);
    }
    loop
        invariant
            n <= len == path@.len(),
            trim_tail(path@.take(n as int)) == trim_tail(path@),
        ensures
            n <= len,
            trim_tail(path@.take(n as int)) == trim_tail(path@),
            trim_tail(path@.take(n as int)) == path@.take(n as int),
        decreases n,
    {
        let ghost head = path@.take(n as int);
        if n > 0 && path.get_char(n - 1) == '/' {
            proof {
                assert(head.drop_last() =~= path@.take(n - 1));
            }
            n = n - 1;
        } else if n >= 2 && path.get_char(n - 1) == '.' && path.get_char(n - 2) == '/' {
            proof {
                assert(head.drop_last().drop_last() =~= path@.take(n - 2));
            }
            n = n - 2;
        } else {
            break;
        }
    }
    let path = path.substring_char(0, n);
    let mut i: usize = n;
    while i > 0
        invariant
            i <= n == path@.len(),
            forall|j: int| i <= j < n ==> path@[j] != '/',
        ensures
            i == 0 || path@[i - 1] == '/',
        decreases i,
    {
        if path.get_char(i - 1) == '/' {
            break;
        }
        i = i - 1;
    }
    proof {
        lemma_after_last(path@, '/', i as int);
    }
    let segment = path.substring_char(i, n);
    proof {
        reveal_strlit(".");
    }
    let pieces = split_os(segment, ".");
    if pieces.len() == 0 {
        proof {
            lemma_before_char(segment@, '.', segment@.len() as int);
            assert(segment@ =~= segment@.take(segment@.len() as int));
        }
        String::from_str(segment)
    } else {
        pieces[0].clone()
    }
}

/// `split_on` always gives at least one piece.
pub proof fn lemma_split_on_nonempty(s: Seq<char>, sep: char)
    ensures
        split_on(s, sep).len() >= 1,
    decreases s.len(),
{
    if s.len() > 0 {
        lemma_split_on_nonempty(s.drop_last(), sep);
    }
}

/// Text without the separator is one piece.
pub proof fn lemma_split_on_whole(s: Seq<char>, sep: char)
    requires
        forall|j: int| 0 <= j < s.len() ==> s[j] != sep,
    ensures
        split_on(s, sep) == seq![s],
    decreases s.len(),
{
    if s.len() == 0 {
        assert(s =~= Seq::<char>::empty());
    } else {
        assert forall|j: int| 0 <= j < s.drop_last().len() implies s.drop_last()[j] != sep by {
            assert(s[j] != sep);
        }
        lemma_split_on_whole(s.drop_last(), sep);
        assert(s[s.len() - 1] != sep);
        let init = split_on(s.drop_last(), sep);
        assert(split_on(s, sep) == init.update(0, init.last().push(s.last())));
        assert(s.drop_last().push(s.last()) =~= s);
        assert(split_on(s, sep) =~= seq![s]);
    }
}

/// Splitting at a separator splits the pieces on either side of it apart.
pub proof fn lemma_split_on_concat(s: Seq<char>, t: Seq<char>, sep: char)
    ensures
        split_on(s.push(sep) + t, sep) == split_on(s, sep) + split_on(t, sep),
    decreases t.len(),
{
    let st = s.push(sep) + t;
    if t.len() == 0 {
        assert(st =~= s.push(sep));
        assert(st.drop_last() =~= s);
        assert(split_on(st, sep) =~= split_on(s, sep) + split_on(t, sep));
    } else {
        lemma_split_on_concat(s, t.drop_last(), sep);
        lemma_split_on_nonempty(t.drop_last(), sep);
        lemma_split_on_nonempty(s, sep);
        assert(st.drop_last() =~= s.push(sep) + t.drop_last());
        assert(st.last() == t.last());
        assert(split_on(st, sep) =~= split_on(s, sep) + split_on(t, sep));
    }
}

/// The pieces of `s` between occurrences of `sep`.
pub fn split_char(s: &str, sep: char) -> (r: Vec<String>)
    ensures
        views(r@) == split_on(s@, sep),
{
    let n = s.unicode_len();
    let mut pieces: Vec<String> = Vec::new();
    let mut start: usize = 0;
    let mut i: usize = 0;
    proof {
        assert(s@.take(0) =~= Seq::<char>::empty());
        assert(views(pieces@).push(s@.subrange(0, 0)) =~= split_on(s@.take(0), sep));
    }
    while i < n
        invariant
            i <= n == s@.len(),
            start <= i,
            views(pieces@).push(s@.subrange(start as int, i as int)) == split_on(s@.take(i as int), sep),
        decreases n - i,
    {
        let c = s.get_char(i);
        let ghost prev = views(pieces@);
        let ghost prev_start = start as int;
        proof {
            assert(s@.take(i + 1).drop_last() =~= s@.take(i as int));
            assert(s@.take(i + 1).last() == c);
        }
        if c == sep {
            let piece = s.substring_char(start, i);
            pieces.push(String::from_str(piece));
            start = i + 1;
            proof {
                assert(views(pieces@) =~= prev.push(s@.subrange(prev_start, i as int)));
                assert(s@.subrange(start as int, i + 1) =~= Seq::<char>::empty());
                assert(views(pieces@).push(s@.subrange(start as int, i + 1))
                    =~= split_on(s@.take(i + 1), sep));
            }
        } else {
            proof {
                assert(s@.subrange(prev_start, i + 1) =~= s@.subrange(prev_start, i as int).push(c));
                assert(views(pieces@).push(s@.subrange(start as int, i + 1))
                    =~= split_on(s@.take(i + 1), sep));
            }
        }
        i = i + 1;
    }
    let ghost prev = views(pieces@);
    let last = s.substring_char(start, n);
    pieces.push(String::from_str(last));
    proof {
        assert(s@.take(n as int) =~= s@);
        assert(views(pieces@) =~= prev.push(s@.subrange(start as int, n as int)));
    }
    pieces
}

} // verus!
