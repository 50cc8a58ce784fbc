//! The name under which a repository's remote is kept: `owner/repo`, read from
//! the repository URL, so that forks of one library stay apart.
use vstd::prelude::*;

use crate::text::{lower_of, lowercase, owned, push_char, trim, trimmed};

verus! {

/// `s` with `p` removed from its front as many times as it is there.
pub open spec fn strip_prefix_all(s: Seq<char>, p: Seq<char>) -> Seq<char>
    decreases s.len(),
{
    if 0 < p.len() <= s.len() && s.subrange(0, p.len() as int) == p {
        strip_prefix_all(s.subrange(p.len() as int, s.len() as int), p)
    } else {
        s
    }
}

/// `s` with `p` removed from its end as many times as it is there.
pub open spec fn strip_suffix_all(s: Seq<char>, p: Seq<char>) -> Seq<char>
    decreases s.len(),
{
    if 0 < p.len() <= s.len() && s.subrange(s.len() - p.len(), s.len() as int) == p {
        strip_suffix_all(s.subrange(0, s.len() - p.len()), p)
    } else {
        s
    }
}

/// What follows the last `c` in `s`; all of `s` where there is none.
pub open spec fn after_last(s: Seq<char>, c: char) -> Seq<char>
    decreases s.len(),
{
    if s.len() == 0 {
        s
    } else if s.last() == c {
        Seq::empty()
    } else {
        after_last(s.drop_last(), c).push(s.last())
    }
}

/// Splitting `s` at `/`, read from the left: the non-empty pieces closed so
/// far, and the piece still open.
pub open spec fn split_state(s: Seq<char>) -> (Seq<Seq<char>>, Seq<char>)
    decreases s.len(),
{
    if s.len() == 0 {
        (Seq::empty(), Seq::empty())
    } else {
        let st = split_state(s.drop_last());
        if s.last() == '/' {
            if st.1.len() > 0 {
                (st.0.push(st.1), Seq::empty())
            } else {
                st
            }
        } else {
            (st.0, st.1.push(s.last()))
        }
    }
}

/// The non-empty pieces of `s` between slashes, in order.
pub open spec fn path_segments(s: Seq<char>) -> Seq<Seq<char>> {
    let st = split_state(s);
    if st.1.len() > 0 {
        st.0.push(st.1)
    } else {
        st.0
    }
}

/// The part of a URL that names the repository: scheme and user prefixes
/// dropped, and for `host:path` URLs what follows the last colon.
pub open spec fn repo_path_of(url: Seq<char>) -> Seq<char> {
    let p = strip_prefix_all(
        strip_prefix_all(strip_prefix_all(strip_prefix_all(url, "https://"@), "http://"@), "ssh://"@),
        "git@"@,
    );
    after_last(p, ':')
}

/// `owner/repo` from a URL with the surrounding white space gone: the last two
/// non-empty path pieces, the second without its `.git` ending; none where the
/// path has fewer than two pieces.
pub open spec fn remote_path_spec(url: Seq<char>) -> Option<Seq<char>> {
    let segs = path_segments(repo_path_of(url));
    if segs.len() < 2 {
        None
    } else {
        Some(segs[segs.len() - 2] + "/"@ + strip_suffix_all(segs[segs.len() - 1], ".git"@))
    }
}

/// The URL has no `owner/repo` path.
#[derive(Debug, Clone, Copy, PartialEq, Eq, Structural)]
pub struct RemoteNameError;

fn has_prefix(s: &str, p: &str) -> (r: bool)
    ensures
        r == (p@.len() <= s@.len() && s@.subrange(0, p@.len() as int) == p@),
{
    let n = s.unicode_len();
    let m = p.unicode_len();
    if m > n {
        return false;
    }
    let mut i: usize = 0;
    while i < m
        invariant
            n == s@.len(),
            m == p@.len(),
            m <= n,
            i <= m,
            forall|k: int| 0 <= k < i ==> s@[k] == #[trigger] p@[k],
        decreases m - i,
    {
        if s.get_char(i) != p.get_char(i) {
            assert(s@.subrange(0, m as int)[i as int] != p@[i as int]);
            return false;
        }
        i = i + 1;
    }
    assert(s@.subrange(0, m as int) =~= p@);
    true
}

fn has_suffix(s: &str, p: &str) -> (r: bool)
    ensures
        r == (p@.len() <= s@.len() && s@.subrange(s@.len() - p@.len(), s@.len() as int) == p@),
{
    let n = s.unicode_len();
    let m = p.unicode_len();
    if m > n {
        return false;
    }
    let d = n - m;
    let mut i: usize = 0;
    while i < m
        invariant
            n == s@.len(),
            m == p@.len(),
            d == n - m,
            i <= m,
            forall|k: int| 0 <= k < i ==> s@[d + k] == #[trigger] p@[k],
        decreases m - i,
    {
        if s.get_char(d + i) != p.get_char(i) {
            assert(s@.subrange(d as int, n as int)[i as int] != p@[i as int]);
            return false;
        }
        i = i + 1;
    }
    assert(s@.subrange(d as int, n as int) =~= p@);
    true
}

fn strip_prefixes(s: &str, p: &str) -> (r: String)
    requires
        p@.len() > 0,
    ensures
        r@ == strip_prefix_all(s@, p@),
{
    let mut cur = owned(s);
    let m = p.unicode_len();
    while has_prefix(cur.as_str(), p)
        invariant
            m == p@.len(),
            m > 0,
            strip_prefix_all(cur@, p@) == strip_prefix_all(s@, p@),
        decreases cur@.len(),
    {
        let n = cur.unicode_len();
        let rest = owned(cur.as_str().substring_char(m, n));
        cur = rest;
    }
    cur
}

fn strip_suffixes(s: &str, p: &str) -> (r: String)
    requires
        p@.len() > 0,
    ensures
        r@ == strip_suffix_all(s@, p@),
{
    let mut cur = owned(s);
    let m = p.unicode_len();
    while has_suffix(cur.as_str(), p)
        invariant
            m == p@.len(),
            m > 0,
            strip_suffix_all(cur@, p@) == strip_suffix_all(s@, p@),
        decreases cur@.len(),
    {
        let n = cur.unicode_len();
        let rest = owned(cur.as_str().substring_char(0, n - m));
        cur = rest;
    }
    cur
}

fn text_after_last(s: &str, c: char) -> (r: String)
    ensures
        r@ == after_last(s@, c),
{
    let n = s.unicode_len();
    let mut start: usize = 0;
    let mut i: usize = 0;
    while i < n
        invariant
            n == s@.len(),
            start <= i <= n,
            after_last(s@.subrange(0, i as int), c) == s@.subrange(start as int, i as int),
        decreases n - i,
    {
        let ch = s.get_char(i);
        assert(s@.subrange(0, i + 1).drop_last() =~= s@.subrange(0, i as int));
        if ch == c {
            start = i + 1;
        }
        i = i + 1;
        assert(after_last(s@.subrange(0, i as int), c) =~= s@.subrange(start as int, i as int));
    }
    assert(s@.subrange(0, n as int) =~= s@);
    owned(s.substring_char(start, n))
}

fn segments(s: &str) -> (r: Vec<String>)
    ensures
        r@.len() == path_segments(s@).len(),
        forall|k: int| 0 <= k < r@.len() ==> (#[trigger] r@[k])@ == path_segments(s@)[k],
{
    let n = s.unicode_len();
    let mut done: Vec<String> = Vec::new();
    let mut cur = String::new();
    let mut i: usize = 0;
    while i < n
        invariant
            n == s@.len(),
            i <= n,
            done@.len() == split_state(s@.subrange(0, i as int)).0.len(),
            forall|k: int| 0 <= k < done@.len() ==> (#[trigger] done@[k])@ == split_state(s@.subrange(0, i as int)).0[k],
            cur@ == split_state(s@.subrange(0, i as int)).1,
        decreases n - i,
    {
        let ch = s.get_char(i);
        assert(s@.subrange(0, i + 1).drop_last() =~= s@.subrange(0, i as int));
        if ch == '/' {
            if cur.unicode_len() > 0 {
                done.push(cur);
                cur = String::new();
            }
        } else {
            push_char(&mut cur, ch);
        }
        i = i + 1;
    }
    assert(s@.subrange(0, n as int) =~= s@);
    if cur.unicode_len() > 0 {
        done.push(cur);
    }
    done
}

/// `owner/repo` from a URL whose surrounding white space is already gone.
pub fn remote_path(url: &str) -> (r: Result<String, RemoteNameError>)
    ensures
        r is Ok <==> remote_path_spec(url@) is Some,
        r is Ok ==> r->Ok_0@ == remote_path_spec(url@)->0,
{
    proof {
        reveal_strlit("https://");
        reveal_strlit("http://");
        reveal_strlit("ssh://");
        reveal_strlit("git@");
        reveal_strlit(".git");
    }
    let p1 = strip_prefixes(url, "https://");
    let p2 = strip_prefixes(p1.as_str(), "http://");
    let p3 = strip_prefixes(p2.as_str(), "ssh://");
    let p4 = strip_prefixes(p3.as_str(), "git@");
    let tail = text_after_last(p4.as_str(), ':');
    let segs = segments(tail.as_str());
    let k = segs.len();
    if k < 2 {
        return Err(RemoteNameError);
    }
    let repo = strip_suffixes(segs[k - 1].as_str(), ".git");
    let mut out = segs[k - 2].clone();
    out.append("/");
    out.append(repo.as_str());
    Ok(out)
}

/// The remote name for a repository URL: its `owner/repo` path in lower case.
pub fn parse_remote_name_from_url(url: &str) -> (r: Result<String, RemoteNameError>)
    ensures
        r is Ok <==> remote_path_spec(trimmed(url@)) is Some,
        r is Ok ==> r->Ok_0@ == lower_of(remote_path_spec(trimmed(url@))->0),
{
    let t = trim(url);
    match remote_path(t.as_str()) {
        Ok(p) => Ok(lowercase(p.as_str())),
        Err(e) => Err(e),
    }
}

} // verus!
