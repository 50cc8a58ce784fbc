//! Commit identifiers as hexadecimal text: parsing an abbreviated identifier
//! and matching it against a full one.
use vstd::prelude::*;

use crate::text::push_char;

verus! {

/// A hexadecimal digit of either case.
pub open spec fn is_hex_digit(c: char) -> bool {
    ('0' <= c && c <= '9') || ('a' <= c && c <= 'f') || ('A' <= c && c <= 'F')
}

/// Upper-case hexadecimal letters in lower case; every other character as it is.
pub open spec fn hex_lower(c: char) -> char {
    match c {
        'A' => 'a',
        'B' => 'b',
        'C' => 'c',
        'D' => 'd',
        'E' => 'e',
        'F' => 'f',
        _ => c,
    }
}

/// The text of an identifier with its hexadecimal letters in lower case.
pub open spec fn lowered_id(s: Seq<char>) -> Seq<char> {
    s.map_values(|c: char| hex_lower(c))
}

/// The fewest and most hexadecimal digits an abbreviated commit identifier may
/// have.
pub const MIN_PREFIX_LEN: usize = 4;
pub const MAX_PREFIX_LEN: usize = 40;

/// A ref read as an abbreviated commit identifier: 4 to 40 hexadecimal digits,
/// given back in lower case.
pub open spec fn commit_prefix_of(s: Seq<char>) -> Option<Seq<char>> {
    if MIN_PREFIX_LEN <= s.len() <= MAX_PREFIX_LEN && forall|i: int| 0 <= i < s.len() ==> is_hex_digit(#[trigger] s[i]) {
        Some(lowered_id(s))
    } else {
        None
    }
}

/// The commit `head` is the commit that the (lower-case) identifier
/// `target` abbreviates.
pub open spec fn commit_matches(head: Seq<char>, target: Seq<char>) -> bool {
    target.len() <= head.len() && lowered_id(head).subrange(0, target.len() as int) == target
}

fn lower_hex_char(c: char) -> (r: char)
    ensures
        r == hex_lower(c),
{
    match c {
        'A' => 'a',
        'B' => 'b',
        'C' => 'c',
        'D' => 'd',
        'E' => 'e',
        'F' => 'f',
        _ => c,
    }
}

/// An identifier with its hexadecimal letters in lower case.
pub fn lowered(s: &str) -> (r: String)
    ensures
        r@ == lowered_id(s@),
{
    let n = s.unicode_len();
    let mut out = String::new();
    let mut i: usize = 0;
    while i < n
        invariant
            n == s@.len(),
            i <= n,
            out@ == lowered_id(s@.subrange(0, i as int)),
        decreases n - i,
    {
        let c = s.get_char(i);
        push_char(&mut out, lower_hex_char(c));
        assert(s@.subrange(0, i + 1) == s@.subrange(0, i as int).push(c));
        i = i + 1;
        assert(out@ =~= lowered_id(s@.subrange(0, i as int)));
    }
    assert(s@.subrange(0, n as int) =~= s@);
    out
}

/// Reads a ref as an abbreviated commit identifier.
pub fn commit_prefix(s: &str) -> (r: Option<String>)
    ensures
        r is Some <==> commit_prefix_of(s@) is Some,
        r is Some ==> r->0@ == commit_prefix_of(s@)->0,
{
    let n = s.unicode_len();
    if n < MIN_PREFIX_LEN || n > MAX_PREFIX_LEN {
        return None;
    }
    let mut out = String::new();
    let mut i: usize = 0;
    while i < n
        invariant
            n == s@.len(),
            i <= n,
            forall|k: int| 0 <= k < i ==> is_hex_digit(#[trigger] s@[k]),
            out@ == lowered_id(s@.subrange(0, i as int)),
        decreases n - i,
    {
        let c = s.get_char(i);
        if !(('0' <= c && c <= '9') || ('a' <= c && c <= 'f') || ('A' <= c && c <= 'F')) {
            return None;
        }
        push_char(&mut out, lower_hex_char(c));
        assert(s@.subrange(0, i + 1) == s@.subrange(0, i as int).push(c));
        i = i + 1;
        assert(out@ =~= lowered_id(s@.subrange(0, i as int)));
    }
    assert(s@.subrange(0, n as int) =~= s@);
    Some(out)
}

/// Whether `head` is the commit that the lower-case identifier `target`
/// abbreviates.
pub fn matches_commit(head: &str, target: &str) -> (r: bool)
    ensures
        r == commit_matches(head@, target@),
{
    let n = head.unicode_len();
    let m = target.unicode_len();
    if m > n {
        return false;
    }
    let mut i: usize = 0;
    while i < m
        invariant
            n == head@.len(),
            m == target@.len(),
            m <= n,
            i <= m,
            forall|k: int| 0 <= k < i ==> hex_lower(#[trigger] head@[k]) == target@[k],
        decreases m - i,
    {
        if lower_hex_char(head.get_char(i)) != target.get_char(i) {
            assert(lowered_id(head@).subrange(0, m as int)[i as int] != target@[i as int]);
            return false;
        }
        i = i + 1;
    }
    assert(lowered_id(head@).subrange(0, m as int) =~= target@);
    true
}

} // verus!
