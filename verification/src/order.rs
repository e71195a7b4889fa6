//! The order in which references are listed: texts compared character by
//! character, a proper prefix before its extensions. It is the order in which
//! Rust compares strings.

use vstd::prelude::*;
use vstd::std_specs::iter::IteratorSpec;

verus! {

/// The first `k` characters of `a` and `b` are the same.
pub open spec fn agree_before(a: Seq<char>, b: Seq<char>, k: int) -> bool {
    &&& 0 <= k <= a.len()
    &&& k <= b.len()
    &&& forall|i: int| 0 <= i < k ==> a[i] == b[i]
}

/// `a` comes no later than `b`: either `a` is a prefix of `b`, or at the first
/// position where they differ the character of `a` has the smaller code point.
pub open spec fn text_le(a: Seq<char>, b: Seq<char>) -> bool {
    exists|k: int| #[trigger]
        agree_before(a, b, k) && (k == a.len() || (k < b.len() && (a[k] as u32) < (b[k] as u32)))
}

/// Decides `text_le` by walking both texts in step.
pub fn precedes(a: &str, b: &str) -> (r: bool)
    ensures
        r == text_le(a@, b@),
{
    let mut left = a.chars();
    let mut right = b.chars();
    let ghost mut k: int = 0;
    loop
        invariant
            agree_before(a@, b@, k),
            left.remaining() == a@.skip(k),
            right.remaining() == b@.skip(k),
        decreases a@.len() - k,
    {
        let x = left.next();
        let y = right.next();
        match (x, y) {
            (None, _) => {
                return true;
            },
            (Some(_), None) => {
                return false;
            },
            (Some(p), Some(q)) => {
                if p != q {
                    return (p as u32) < (q as u32);
                }
                proof {
                    k = k + 1;
                }
            },
        }
    }
}

/// The texts stand in ascending order: each comes no later than all that
/// follow it.
pub open spec fn ascending(list: Seq<Seq<char>>) -> bool {
    forall|i: int, j: int| 0 <= i < j < list.len() ==> text_le(#[trigger] list[i], #[trigger] list[j])
}

/// `text_le` as a relation, for the sequence library's notion of sorting.
pub open spec fn text_order() -> spec_fn(Seq<char>, Seq<char>) -> bool {
    |a: Seq<char>, b: Seq<char>| text_le(a, b)
}

/// Every text comes no later than itself.
pub proof fn lemma_text_le_reflexive(a: Seq<char>)
    ensures
        text_le(a, a),
{
    assert(agree_before(a, a, a.len() as int));
}

/// Two texts that each come no later than the other are the same text.
pub proof fn lemma_text_le_antisymmetric(a: Seq<char>, b: Seq<char>)
    requires
        text_le(a, b),
        text_le(b, a),
    ensures
        a == b,
{
    let k = choose|k: int| #[trigger]
        agree_before(a, b, k) && (k == a.len() || (k < b.len() && (a[k] as u32) < (b[k] as u32)));
    let m = choose|m: int| #[trigger]
        agree_before(b, a, m) && (m == b.len() || (m < a.len() && (b[m] as u32) < (a[m] as u32)));
    assert(k == m);
}

/// The order passes along chains: from `a` before `b` and `b` before `c`
/// follows `a` before `c`.
pub proof fn lemma_text_le_transitive(a: Seq<char>, b: Seq<char>, c: Seq<char>)
    requires
        text_le(a, b),
        text_le(b, c),
    ensures
        text_le(a, c),
{
    let k = choose|k: int| #[trigger]
        agree_before(a, b, k) && (k == a.len() || (k < b.len() && (a[k] as u32) < (b[k] as u32)));
    let m = choose|m: int| #[trigger]
        agree_before(b, c, m) && (m == b.len() || (m < c.len() && (b[m] as u32) < (c[m] as u32)));
    assert(agree_before(a, c, if k <= m { k } else { m }));
}

/// Of two texts, one comes no later than the other.
pub proof fn lemma_text_le_total(a: Seq<char>, b: Seq<char>)
    ensures
        text_le(a, b) || text_le(b, a),
{
    lemma_total_from(a, b, 0);
}

proof fn lemma_total_from(a: Seq<char>, b: Seq<char>, k: int)
    requires
        agree_before(a, b, k),
    ensures
        text_le(a, b) || text_le(b, a),
    decreases a.len() - k,
{
    if k == a.len() {
    } else if k == b.len() {
        assert(agree_before(b, a, k));
    } else if a[k] == b[k] {
        lemma_total_from(a, b, k + 1);
    } else {
        assert(a[k] as u32 != b[k] as u32) by {
            vstd::utf8::char_u32_cast(a[k], a[k] as u32);
            vstd::utf8::char_u32_cast(b[k], b[k] as u32);
        }
    }
}

/// `text_le` orders all texts in one line.
pub proof fn lemma_text_order_is_total()
    ensures
        vstd::relations::total_ordering(text_order()),
{
    let r = text_order();
    assert forall|a: Seq<char>, b: Seq<char>| #[trigger] r(a, b) && #[trigger] r(b, a) implies a
        == b by {
        lemma_text_le_antisymmetric(a, b);
    }
    assert forall|a: Seq<char>, b: Seq<char>, c: Seq<char>| #[trigger]
        r(a, b) && #[trigger] r(b, c) implies r(a, c) by {
        lemma_text_le_transitive(a, b, c);
    }
    assert forall|a: Seq<char>, b: Seq<char>| #[trigger] r(a, b) || #[trigger] r(b, a) by {
        lemma_text_le_total(a, b);
    }
}

/// `ascending` is the sequence library's sortedness under `text_order`.
pub proof fn lemma_ascending_is_sorted(list: Seq<Seq<char>>)
    ensures
        ascending(list) <==> vstd::relations::sorted_by(list, text_order()),
{
    let r = text_order();
    if vstd::relations::sorted_by(list, r) {
        assert forall|i: int, j: int| 0 <= i < j < list.len() implies text_le(
            #[trigger] list[i],
            #[trigger] list[j],
        ) by {
            assert(r(list[i], list[j]));
        }
    }
}

/// Ascending order leaves no choice: two ascending lists of the same texts,
/// each text as often in one as in the other, are the same list, namely the
/// sorted one.
pub proof fn lemma_ascending_is_unique(a: Seq<Seq<char>>, b: Seq<Seq<char>>)
    requires
        ascending(a),
        ascending(b),
        a.to_multiset() == b.to_multiset(),
    ensures
        a == b,
        a == b.sort_by(text_order()),
{
    lemma_text_order_is_total();
    lemma_ascending_is_sorted(a);
    lemma_ascending_is_sorted(b);
    vstd::seq_lib::lemma_sorted_unique(a, b, text_order());
    b.lemma_sort_by_ensures(text_order());
    vstd::seq_lib::lemma_sorted_unique(a, b.sort_by(text_order()), text_order());
}

} // verus!
