//! The order in which a manifest is written: by library name, ignoring case,
//! with libraries whose names differ only in case kept in their given order.
use vstd::prelude::*;

use crate::dependencies::Dependancies;
use crate::haxelib::Haxelib;
use crate::text::{lower_of, lowercase};

verus! {

/// Lexicographic order on character sequences, by code point: the order of
/// `str`'s `Ord`.
pub open spec fn text_le(a: Seq<char>, b: Seq<char>) -> bool
    decreases a.len(),
{
    if a.len() == 0 {
        true
    } else if b.len() == 0 {
        false
    } else if a[0] != b[0] {
        a[0] < b[0]
    } else {
        text_le(a.drop_first(), b.drop_first())
    }
}

/// The key a library is ordered by: its name in lower case.
pub open spec fn sort_key(h: Haxelib) -> Seq<char> {
    lower_of(h.name@)
}

/// The libraries whose key is `k`, in their order in `s`.
pub open spec fn with_key(s: Seq<Haxelib>, k: Seq<char>) -> Seq<Haxelib>
    decreases s.len(),
{
    if s.len() == 0 {
        s
    } else if sort_key(s.last()) == k {
        with_key(s.drop_last(), k).push(s.last())
    } else {
        with_key(s.drop_last(), k)
    }
}

/// Each library's key is at most the next one's.
pub open spec fn ordered_by_key(s: Seq<Haxelib>) -> bool {
    forall|i: int| 0 <= i && i + 1 < s.len() ==> text_le(sort_key(#[trigger] s[i]), sort_key(s[i + 1]))
}

pub proof fn lemma_text_le_reflexive(a: Seq<char>)
    ensures
        text_le(a, a),
    decreases a.len(),
{
    if a.len() > 0 {
        lemma_text_le_reflexive(a.drop_first());
    }
}

pub proof fn lemma_text_le_total(a: Seq<char>, b: Seq<char>)
    ensures
        text_le(a, b) || text_le(b, a),
    decreases a.len(),
{
    if a.len() > 0 && b.len() > 0 && a[0] == b[0] {
        lemma_text_le_total(a.drop_first(), b.drop_first());
    }
}

pub proof fn lemma_text_le_transitive(a: Seq<char>, b: Seq<char>, c: Seq<char>)
    requires
        text_le(a, b),
        text_le(b, c),
    ensures
        text_le(a, c),
    decreases a.len(),
{
    if a.len() > 0 && b.len() > 0 && c.len() > 0 && a[0] == b[0] && b[0] == c[0] {
        lemma_text_le_transitive(a.drop_first(), b.drop_first(), c.drop_first());
    }
}

/// A manifest in save order lists every library no later than any library
/// whose lower-case name is larger, whatever order it was given in: the
/// neighbour-by-neighbour order that `sorted_for_save` ensures holds between
/// any two positions.
pub proof fn lemma_saved_order_is_sorted(s: Seq<Haxelib>)
    requires
        ordered_by_key(s),
    ensures
        forall|i: int, j: int| 0 <= i <= j < s.len() ==> text_le(sort_key(#[trigger] s[i]), sort_key(#[trigger] s[j])),
{
    assert forall|i: int, j: int| 0 <= i <= j < s.len() implies text_le(sort_key(#[trigger] s[i]), sort_key(#[trigger] s[j])) by {
        lemma_ordered_span(s, i, j);
    }
}

proof fn lemma_ordered_span(s: Seq<Haxelib>, i: int, j: int)
    requires
        ordered_by_key(s),
        0 <= i <= j < s.len(),
    ensures
        text_le(sort_key(s[i]), sort_key(s[j])),
    decreases j - i,
{
    if i == j {
        lemma_text_le_reflexive(sort_key(s[i]));
    } else {
        lemma_ordered_span(s, i + 1, j);
        lemma_text_le_transitive(sort_key(s[i]), sort_key(s[i + 1]), sort_key(s[j]));
    }
}

pub proof fn lemma_text_le_antisymmetric(a: Seq<char>, b: Seq<char>)
    requires
        text_le(a, b),
        text_le(b, a),
    ensures
        a == b,
    decreases a.len(),
{
    if a.len() > 0 && b.len() > 0 && a[0] == b[0] {
        lemma_text_le_antisymmetric(a.drop_first(), b.drop_first());
        assert(a =~= seq![a[0]] + a.drop_first());
        assert(b =~= seq![b[0]] + b.drop_first());
    }
}

proof fn lemma_with_key_nonempty(s: Seq<Haxelib>, i: int)
    requires
        0 <= i < s.len(),
    ensures
        with_key(s, sort_key(s[i])).len() > 0,
    decreases s.len(),
{
    if i < s.len() - 1 {
        lemma_with_key_nonempty(s.drop_last(), i);
        assert(s.drop_last()[i] == s[i]);
    }
}

proof fn lemma_with_key_member(s: Seq<Haxelib>, k: Seq<char>)
    requires
        with_key(s, k).len() > 0,
    ensures
        exists|i: int| 0 <= i < s.len() && sort_key(#[trigger] s[i]) == k,
    decreases s.len(),
{
    if sort_key(s.last()) != k {
        lemma_with_key_member(s.drop_last(), k);
        let i = choose|i: int| 0 <= i < s.drop_last().len() && sort_key(#[trigger] s.drop_last()[i]) == k;
        assert(s[i] == s.drop_last()[i]);
    } else {
        assert(sort_key(s[s.len() - 1]) == k);
    }
}

/// Two manifests in save order that hold the same libraries under each
/// lower-case name, in the same relative order, are the same list.
pub proof fn lemma_save_order_unique(a: Seq<Haxelib>, b: Seq<Haxelib>)
    requires
        ordered_by_key(a),
        ordered_by_key(b),
        forall|k: Seq<char>| #[trigger] with_key(a, k) == with_key(b, k),
    ensures
        a == b,
    decreases a.len() + b.len(),
{
    if a.len() == 0 && b.len() == 0 {
        assert(a =~= b);
    } else if a.len() == 0 {
        lemma_with_key_nonempty(b, b.len() - 1);
        assert(with_key(a, sort_key(b.last())) == a);
    } else if b.len() == 0 {
        lemma_with_key_nonempty(a, a.len() - 1);
        assert(with_key(b, sort_key(a.last())) == b);
    } else {
        let ka = sort_key(a.last());
        let kb = sort_key(b.last());
        lemma_saved_order_is_sorted(a);
        lemma_saved_order_is_sorted(b);
        lemma_with_key_nonempty(a, a.len() - 1);
        lemma_with_key_nonempty(b, b.len() - 1);
        assert(with_key(a, ka) == with_key(b, ka));
        assert(with_key(a, kb) == with_key(b, kb));
        lemma_with_key_member(b, ka);
        lemma_with_key_member(a, kb);
        let ib = choose|i: int| 0 <= i < b.len() && sort_key(#[trigger] b[i]) == ka;
        let ia = choose|i: int| 0 <= i < a.len() && sort_key(#[trigger] a[i]) == kb;
        assert(text_le(sort_key(b[ib]), sort_key(b[b.len() - 1])));
        assert(text_le(sort_key(a[ia]), sort_key(a[a.len() - 1])));
        lemma_text_le_antisymmetric(ka, kb);
        assert(a.last() == with_key(a, ka).last());
        assert(b.last() == with_key(b, ka).last());
        let a2 = a.drop_last();
        let b2 = b.drop_last();
        assert forall|k: Seq<char>| #[trigger] with_key(a2, k) == with_key(b2, k) by {
            assert(with_key(a, k) == with_key(b, k));
            if k == ka {
                assert(with_key(a2, k) =~= with_key(a, k).drop_last());
                assert(with_key(b2, k) =~= with_key(b, k).drop_last());
            }
        }
        assert forall|i: int| 0 <= i && i + 1 < a2.len() implies text_le(sort_key(#[trigger] a2[i]), sort_key(a2[i + 1])) by {
            assert(a2[i] == a[i] && a2[i + 1] == a[i + 1]);
        }
        assert forall|i: int| 0 <= i && i + 1 < b2.len() implies text_le(sort_key(#[trigger] b2[i]), sort_key(b2[i + 1])) by {
            assert(b2[i] == b[i] && b2[i + 1] == b[i + 1]);
        }
        lemma_save_order_unique(a2, b2);
        assert(a =~= a2.push(a.last()));
        assert(b =~= b2.push(b.last()));
    }
}

/// The save order does not depend on the order the manifest lists its
/// libraries in: two manifests holding the same libraries under each
/// lower-case name, in the same relative order, are saved as the same list.
/// `r1` and `r2` are what `sorted_for_save` returns for `s1` and `s2`.
pub proof fn lemma_save_order_independent(s1: Seq<Haxelib>, s2: Seq<Haxelib>, r1: Seq<Haxelib>, r2: Seq<Haxelib>)
    requires
        forall|k: Seq<char>| #[trigger] with_key(s1, k) == with_key(s2, k),
        ordered_by_key(r1),
        forall|k: Seq<char>| #[trigger] with_key(r1, k) == with_key(s1, k),
        ordered_by_key(r2),
        forall|k: Seq<char>| #[trigger] with_key(r2, k) == with_key(s2, k),
    ensures
        r1 == r2,
{
    assert forall|k: Seq<char>| #[trigger] with_key(r1, k) == with_key(r2, k) by {
        assert(with_key(r1, k) == with_key(s1, k));
        assert(with_key(s1, k) == with_key(s2, k));
        assert(with_key(r2, k) == with_key(s2, k));
    }
    lemma_save_order_unique(r1, r2);
}

proof fn lemma_with_key_concat(a: Seq<Haxelib>, b: Seq<Haxelib>, k: Seq<char>)
    ensures
        with_key(a + b, k) == with_key(a, k) + with_key(b, k),
    decreases b.len(),
{
    if b.len() == 0 {
        assert(a + b =~= a);
        assert(with_key(a, k) + with_key(b, k) =~= with_key(a, k));
    } else {
        lemma_with_key_concat(a, b.drop_last(), k);
        assert((a + b).drop_last() =~= a + b.drop_last());
        assert((a + b).last() == b.last());
        if sort_key(b.last()) == k {
            assert(with_key(a, k) + with_key(b.drop_last(), k).push(b.last()) =~= (with_key(a, k) + with_key(
                b.drop_last(),
                k,
            )).push(b.last()));
        }
    }
}

proof fn lemma_with_key_none(b: Seq<Haxelib>, k: Seq<char>)
    requires
        forall|m: int| 0 <= m < b.len() ==> sort_key(#[trigger] b[m]) != k,
    ensures
        with_key(b, k) == Seq::<Haxelib>::empty(),
    decreases b.len(),
{
    if b.len() > 0 {
        lemma_with_key_none(b.drop_last(), k);
    }
}

/// Inserting `x` at `j`, where everything after `j` has a larger key, keeps
/// each key's group as it was but for `x` joining the end of its own.
proof fn lemma_insert_groups(out: Seq<Haxelib>, j: int, x: Haxelib, k: Seq<char>)
    requires
        0 <= j <= out.len(),
        forall|m: int| j <= m < out.len() ==> sort_key(#[trigger] out[m]) != sort_key(x),
    ensures
        with_key(out.insert(j, x), k) == if sort_key(x) == k {
            with_key(out, k).push(x)
        } else {
            with_key(out, k)
        },
{
    let pre = out.subrange(0, j);
    let post = out.subrange(j, out.len() as int);
    assert(out =~= pre + post);
    assert(out.insert(j, x) =~= pre + (seq![x] + post));
    lemma_with_key_concat(pre, seq![x] + post, k);
    lemma_with_key_concat(seq![x], post, k);
    lemma_with_key_concat(pre, post, k);
    let e = seq![x].drop_last();
    assert(e =~= Seq::<Haxelib>::empty());
    assert(with_key(e, k) == e);
    assert(seq![x].last() == x);
    if sort_key(x) == k {
        lemma_with_key_none(post, k);
        assert(with_key(seq![x], k) =~= seq![x]);
        assert(with_key(pre, k) + (seq![x] + Seq::<Haxelib>::empty()) =~= (with_key(pre, k) + Seq::<Haxelib>::empty()).push(x));
    } else {
        assert(with_key(seq![x], k) =~= Seq::<Haxelib>::empty());
        assert(with_key(pre, k) + (Seq::<Haxelib>::empty() + with_key(post, k)) =~= with_key(pre, k) + with_key(post, k));
    }
}

/// Compares two strings in the order of `str`'s `Ord`.
pub fn text_at_most(a: &str, b: &str) -> (r: bool)
    ensures
        r == text_le(a@, b@),
{
    let n = a.unicode_len();
    let m = b.unicode_len();
    let mut i: usize = 0;
    assert(a@.skip(0) =~= a@);
    assert(b@.skip(0) =~= b@);
    while i < n && i < m
        invariant
            n == a@.len(),
            m == b@.len(),
            i <= n,
            i <= m,
            text_le(a@, b@) == text_le(a@.skip(i as int), b@.skip(i as int)),
        decreases n - i,
    {
        let ca = a.get_char(i);
        let cb = b.get_char(i);
        if ca != cb {
            return ca < cb;
        }
        assert(a@.skip(i as int).drop_first() =~= a@.skip(i + 1));
        assert(b@.skip(i as int).drop_first() =~= b@.skip(i + 1));
        i = i + 1;
    }
    i == n
}

/// The manifest in the order it is written in: sorted by lower-case name, a
/// stable sort.
pub fn sorted_for_save(deps: &Dependancies) -> (r: Dependancies)
    ensures
        r.dependencies@.len() == deps.dependencies@.len(),
        ordered_by_key(r.dependencies@),
        forall|k: Seq<char>| #[trigger] with_key(r.dependencies@, k) == with_key(deps.dependencies@, k),
{
    let n = deps.dependencies.len();
    let mut out: Vec<Haxelib> = Vec::new();
    let mut keys: Vec<String> = Vec::new();
    let mut i: usize = 0;
    while i < n
        invariant
            n == deps.dependencies@.len(),
            i <= n,
            out@.len() == i,
            keys@.len() == i,
            forall|m: int| 0 <= m < i ==> (#[trigger] keys@[m])@ == sort_key(out@[m]),
            ordered_by_key(out@),
            forall|k: Seq<char>| #[trigger] with_key(out@, k) == with_key(deps.dependencies@.subrange(0, i as int), k),
        decreases n - i,
    {
        let x = deps.dependencies[i].duplicate();
        let kx = lowercase(x.name.as_str());
        let mut j: usize = i;
        while j > 0 && !text_at_most(keys[j - 1].as_str(), kx.as_str())
            invariant
                j <= i,
                i == out@.len(),
                i == keys@.len(),
                kx@ == sort_key(x),
                forall|m: int| 0 <= m < i ==> (#[trigger] keys@[m])@ == sort_key(out@[m]),
                forall|m: int| j <= m < i ==> !text_le(sort_key(#[trigger] out@[m]), kx@),
            decreases j,
        {
            j = j - 1;
        }
        proof {
            assert forall|m: int| j <= m < out@.len() implies sort_key(#[trigger] out@[m]) != sort_key(x) by {
                lemma_text_le_reflexive(sort_key(x));
            }
            if j < i {
                lemma_text_le_total(sort_key(out@[j as int]), kx@);
            }
            assert forall|k: Seq<char>| #[trigger] with_key(out@.insert(j as int, x), k) == with_key(
                deps.dependencies@.subrange(0, i + 1),
                k,
            ) by {
                lemma_insert_groups(out@, j as int, x, k);
                assert(deps.dependencies@.subrange(0, i + 1).drop_last() =~= deps.dependencies@.subrange(0, i as int));
            }
        }
        let ghost old_out = out@;
        out.insert(j, x);
        keys.insert(j, kx);
        proof {
            assert forall|m: int| 0 <= m && m + 1 < out@.len() implies text_le(sort_key(#[trigger] out@[m]), sort_key(out@[m + 1])) by {
                if m + 1 < j {
                    assert(out@[m] == old_out[m] && out@[m + 1] == old_out[m + 1]);
                } else if m + 1 == j {
                } else if m == j {
                } else {
                    assert(out@[m] == old_out[m - 1] && out@[m + 1] == old_out[m]);
                }
            }
        }
        i = i + 1;
    }
    assert(deps.dependencies@.subrange(0, n as int) =~= deps.dependencies@);
    Dependancies { dependencies: out }
}

} // verus!
