use vstd::prelude::*;

verus! {

/// The path-separator convention the tool runs under: POSIX paths use `/`,
/// Windows paths accept `/` and `\` and use `\` when a separator is added.
#[derive(Clone, Copy, PartialEq, Eq, Structural, Debug)]
pub enum Platform {
    Posix,
    Windows,
}

/// The longest prefix of `s` that does not end with `c`.
pub open spec fn trim_end(s: Seq<char>, c: char) -> Seq<char>
    decreases s.len(),
{
    if s.len() > 0 && s.last() == c {
        trim_end(s.drop_last(), c)
    } else {
        s
    }
}

/// The longest suffix of `s` that does not start with `c`.
pub open spec fn trim_start(s: Seq<char>, c: char) -> Seq<char>
    decreases s.len(),
{
    if s.len() > 0 && s.first() == c {
        trim_start(s.drop_first(), c)
    } else {
        s
    }
}

/// Whether `c` separates path components under `p`.
pub open spec fn is_sep(c: char, p: Platform) -> bool {
    c == '/' || (p is Windows && c == '\\')
}

/// The separator that is written when one has to be added under `p`.
pub open spec fn sep_of(p: Platform) -> char {
    if p is Windows {
        '\\'
    } else {
        '/'
    }
}

/// The directory part of a path: everything before its last separator.
/// A path without a separator has parent `"."`, the working directory;
/// a path whose only separator is its first character keeps that root.
pub open spec fn parent_of(s: Seq<char>, p: Platform) -> Seq<char>
    decreases s.len(),
{
    if s.len() == 0 {
        seq!['.']
    } else if is_sep(s.last(), p) {
        if s.len() == 1 {
            s
        } else {
            s.drop_last()
        }
    } else {
        parent_of(s.drop_last(), p)
    }
}

/// `name` placed under the directory `dir`: a separator is added unless
/// `dir` already ends with one.
pub open spec fn join_path_spec(dir: Seq<char>, name: Seq<char>, p: Platform) -> Seq<char> {
    if dir.len() > 0 && is_sep(dir.last(), p) {
        dir + name
    } else {
        dir + seq![sep_of(p)] + name
    }
}

fn sep_char(c: char, p: Platform) -> (b: bool)
    ensures
        b == is_sep(c, p),
{
    c == '/' || (matches!(p, Platform::Windows) && c == '\\')
}

fn trim_end_char(out: &str, c: char) -> (r: String)
    ensures
        r@ == trim_end(out@, c),
{
    let mut end: usize = out.unicode_len();
    proof {
        assert(out@.subrange(0, end as int) =~= out@);
    }
    while end > 0 && out.get_char(end - 1) == c
        invariant
            end <= out@.len(),
            trim_end(out@.subrange(0, end as int), c) == trim_end(out@, c),
        decreases end,
    {
        proof {
            let pre = out@.subrange(0, end as int);
            assert(pre.last() == out@[end - 1]);
            assert(pre.drop_last() =~= out@.subrange(0, end - 1));
        }
        end = end - 1;
    }
    proof {
        if end > 0 {
            assert(out@.subrange(0, end as int).last() == out@[end - 1]);
        }
    }
    out.substring_char(0, end).to_owned()
}

fn trim_start_char(out: &str, c: char) -> (r: String)
    ensures
        r@ == trim_start(out@, c),
{
    let n: usize = out.unicode_len();
    let mut start: usize = 0;
    proof {
        assert(out@.subrange(0, n as int) =~= out@);
    }
    while start < n && out.get_char(start) == c
        invariant
            start <= n,
            n == out@.len(),
            trim_start(out@.subrange(start as int, n as int), c) == trim_start(out@, c),
        decreases n - start,
    {
        proof {
            let suf = out@.subrange(start as int, n as int);
            assert(suf.first() == out@[start as int]);
            assert(suf.drop_first() =~= out@.subrange(start as int + 1, n as int));
        }
        start = start + 1;
    }
    proof {
        if start < n {
            assert(out@.subrange(start as int, n as int).first() == out@[start as int]);
        }
    }
    out.substring_char(start, n).to_owned()
}

/// Trims every trailing `/` from a path.
pub fn remove_slash(out: &str) -> (r: String)
    ensures
        r@ == trim_end(out@, '/'),
{
    trim_end_char(out, '/')
}

/// Trims every leading `/` from a path.
pub fn remove_slash_start(out: &str) -> (r: String)
    ensures
        r@ == trim_start(out@, '/'),
{
    trim_start_char(out, '/')
}

/// Trims every trailing `\` from a path.
pub fn remove_backslash(out: &str) -> (r: String)
    ensures
        r@ == trim_end(out@, '\\'),
{
    trim_end_char(out, '\\')
}

/// Trims every leading `\` from a path.
pub fn remove_backslash_start(out: &str) -> (r: String)
    ensures
        r@ == trim_start(out@, '\\'),
{
    trim_start_char(out, '\\')
}

/// Trims every leading home marker `~` from a path.
pub fn remove_tilde(out: &str) -> (r: String)
    ensures
        r@ == trim_start(out@, '~'),
{
    trim_start_char(out, '~')
}

/// Appending one `c` to a path without a trailing `c` and trimming
/// trailing `c`s afterwards gives the path back.
pub proof fn lemma_trim_end_round_trip(p: Seq<char>, c: char)
    requires
        p.len() == 0 || p.last() != c,
    ensures
        trim_end(p.push(c), c) == p,
{
    assert(p.push(c).last() == c);
    assert(p.push(c).drop_last() =~= p);
    assert(trim_end(p.push(c), c) == trim_end(p, c));
    assert(trim_end(p, c) == p);
}

/// Prepending one `c` to a path without a leading `c` and trimming
/// leading `c`s afterwards gives the path back.
pub proof fn lemma_trim_start_round_trip(p: Seq<char>, c: char)
    requires
        p.len() == 0 || p.first() != c,
    ensures
        trim_start(seq![c] + p, c) == p,
{
    assert((seq![c] + p).first() == c);
    assert((seq![c] + p).drop_first() =~= p);
    assert(trim_start(seq![c] + p, c) == trim_start(p, c));
    assert(trim_start(p, c) == p);
}

/// The directory part of a path: everything before its last separator,
/// `"."` for a path without one.
pub fn get_dir_from_path(path: &str, platform: Platform) -> (r: String)
    ensures
        r@ == parent_of(path@, platform),
{
    let n: usize = path.unicode_len();
    let mut i: usize = n;
    proof {
        assert(path@.subrange(0, n as int) =~= path@);
    }
    while i > 0 && !sep_char(path.get_char(i - 1), platform)
        invariant
            i <= n,
            n == path@.len(),
            parent_of(path@.subrange(0, i as int), platform) == parent_of(path@, platform),
        decreases i,
    {
        proof {
            let pre = path@.subrange(0, i as int);
            assert(pre.last() == path@[i - 1]);
            assert(pre.drop_last() =~= path@.subrange(0, i - 1));
        }
        i = i - 1;
    }
    if i == 0 {
        proof {
            reveal_strlit(".");
            assert("."@ =~= seq!['.']);
        }
        ".".to_owned()
    } else {
        proof {
            assert(path@.subrange(0, i as int).last() == path@[i - 1]);
        }
        if i == 1 {
            path.substring_char(0, 1).to_owned()
        } else {
            proof {
                assert(path@.subrange(0, i as int).drop_last() =~= path@.subrange(0, i - 1));
            }
            path.substring_char(0, i - 1).to_owned()
        }
    }
}

/// Places `name` under the directory `dir`, adding a separator unless
/// `dir` already ends with one.
pub fn join_path(dir: &str, name: &str, platform: Platform) -> (r: String)
    ensures
        r@ == join_path_spec(dir@, name@, platform),
{
    let n: usize = dir.unicode_len();
    let mut r = dir.to_owned();
    if n == 0 || !sep_char(dir.get_char(n - 1), platform) {
        if matches!(platform, Platform::Windows) {
            proof {
                reveal_strlit("\\");
                assert("\\"@ =~= seq!['\\']);
            }
            r.append("\\");
        } else {
            proof {
                reveal_strlit("/");
                assert("/"@ =~= seq!['/']);
            }
            r.append("/");
        }
    }
    r.append(name);
    r
}

} // verus!
