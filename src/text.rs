//! Character-level helpers on strings, and the few std string operations the
//! rest of the library builds on.
use vstd::prelude::*;

verus! {

/// Relies on `String::push`: the character is appended at the end.
#[verifier::external_body]
pub(crate) fn push_char(s: &mut String, c: char)
    ensures
        final(s)@ == old(s)@.push(c),
{
    s.push(c)
}

/// What `str::to_lowercase` makes of a sequence of characters.
pub uninterp spec fn lower_of(s: Seq<char>) -> Seq<char>;

/// Relies on `str::to_lowercase`: the result depends on the characters alone.
#[verifier::external_body]
pub(crate) fn lowercase(s: &str) -> (r: String)
    ensures
        r@ == lower_of(s@),
{
    s.to_lowercase()
}

/// What `str::trim` makes of a sequence of characters.
pub uninterp spec fn trimmed(s: Seq<char>) -> Seq<char>;

/// Relies on `str::trim`: leading and trailing white space go, and the result
/// depends on the characters alone.
#[verifier::external_body]
pub(crate) fn trim(s: &str) -> (r: String)
    ensures
        r@ == trimmed(s@),
{
    s.trim().to_string()
}

/// `p` occurs in `s` as a contiguous run of characters.
pub open spec fn has_infix(s: Seq<char>, p: Seq<char>) -> bool {
    exists|i: int| 0 <= i && i + p.len() <= s.len() && #[trigger] s.subrange(i, i + p.len()) == p
}

/// Relies on `str::contains` with a string pattern: true exactly when the
/// pattern occurs in the text.
#[verifier::external_body]
pub(crate) fn contains_text(s: &str, p: &str) -> (r: bool)
    ensures
        r == has_infix(s@, p@),
{
    s.contains(p)
}

/// The cache directory segment of a name: every `.` becomes `,`, nothing else
/// changes.
pub open spec fn escaped(s: Seq<char>) -> Seq<char> {
    s.map_values(|c: char| if c == '.' { ',' } else { c })
}

/// Escaping turns each `.` into `,` and changes nothing else: the length
/// stays, every other character stays where it was, and no `.` is left.
pub proof fn lemma_escape_changes_only_dots(s: Seq<char>)
    ensures
        escaped(s).len() == s.len(),
        forall|i: int| 0 <= i < s.len() ==> #[trigger] escaped(s)[i] == if s[i] == '.' {
            ','
        } else {
            s[i]
        },
        forall|i: int| 0 <= i < s.len() ==> #[trigger] escaped(s)[i] != '.',
{
}

/// Escapes a library name (or a version) for use as a cache directory name.
pub fn escape_name(s: &str) -> (r: String)
    ensures
        r@ == escaped(s@),
{
    let n = s.unicode_len();
    let mut out = String::new();
    let mut i: usize = 0;
    while i < n
        invariant
            n == s@.len(),
            i <= n,
            out@ == escaped(s@.subrange(0, i as int)),
        decreases n - i,
    {
        let c = s.get_char(i);
        if c == '.' {
            push_char(&mut out, ',');
        } else {
            push_char(&mut out, c);
        }
        assert(s@.subrange(0, i + 1) == s@.subrange(0, i as int).push(c));
        i = i + 1;
        assert(out@ =~= escaped(s@.subrange(0, i as int)));
    }
    assert(s@.subrange(0, n as int) =~= s@);
    out
}

/// Character-wise equality of two strings.
pub fn same_text(a: &str, b: &str) -> (r: bool)
    ensures
        r == (a@ == b@),
{
    let n = a.unicode_len();
    let m = b.unicode_len();
    if n != m {
        return false;
    }
    let mut i: usize = 0;
    while i < n
        invariant
            n == a@.len(),
            n == b@.len(),
            i <= n,
            a@.subrange(0, i as int) == b@.subrange(0, i as int),
        decreases n - i,
    {
        if a.get_char(i) != b.get_char(i) {
            return false;
        }
        assert(a@.subrange(0, i + 1) =~= a@.subrange(0, i as int).push(a@[i as int]));
        assert(b@.subrange(0, i + 1) =~= b@.subrange(0, i as int).push(b@[i as int]));
        i = i + 1;
    }
    assert(a@ =~= a@.subrange(0, n as int));
    assert(b@ =~= b@.subrange(0, n as int));
    true
}

/// Copies a string slice into an owned string.
pub fn owned(s: &str) -> (r: String)
    ensures
        r@ == s@,
{
    String::from_str(s)
}

/// Copies an optional string.
pub fn copy_opt(o: &Option<String>) -> (r: Option<String>)
    ensures
        r == *o,
{
    match o {
        Some(s) => Some(s.clone()),
        None => None,
    }
}

/// `a` followed by `b`.
pub fn join2(a: &str, b: &str) -> (r: String)
    ensures
        r@ == a@ + b@,
{
    String::from_str(a).concat(b)
}

} // verus!
