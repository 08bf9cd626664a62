//! Ordering of listings: text order (the order of `str`, which for UTF-8
//! is the order of the code points) and a stable insertion sort over any
//! type with a total preorder.
use vstd::prelude::*;
use crate::text::chars_of;
use vstd::multiset::Multiset;

verus! {

/// `a` is at most `b` in text order, comparing from position `i` on, the
/// characters before `i` being equal.
pub open spec fn text_le_from(a: Seq<char>, b: Seq<char>, i: int) -> bool
    decreases a.len() - i,
{
    if i < 0 || i >= a.len() {
        true
    } else if i >= b.len() {
        false
    } else if a[i] != b[i] {
        (a[i] as int) < (b[i] as int)
    } else {
        text_le_from(a, b, i + 1)
    }
}

/// `a` is at most `b` in text order (lexicographic by code point, a prefix
/// first).
pub open spec fn text_le(a: Seq<char>, b: Seq<char>) -> bool {
    text_le_from(a, b, 0)
}

/// Text order is total.
pub proof fn lemma_text_le_total(a: Seq<char>, b: Seq<char>, i: int)
    requires
        0 <= i,
    ensures
        text_le_from(a, b, i) || text_le_from(b, a, i),
    decreases a.len() - i,
{
    if i < a.len() && i < b.len() {
        if a[i] == b[i] {
            lemma_text_le_total(a, b, i + 1);
        } else {
            assert((a[i] as int) != (b[i] as int));
        }
    }
}

/// Text order is transitive.
pub proof fn lemma_text_le_trans(a: Seq<char>, b: Seq<char>, c: Seq<char>, i: int)
    requires
        0 <= i,
        text_le_from(a, b, i),
        text_le_from(b, c, i),
    ensures
        text_le_from(a, c, i),
    decreases a.len() - i,
{
    if i < a.len() && i < b.len() && i < c.len() && a[i] == b[i] && b[i] == c[i] {
        lemma_text_le_trans(a, b, c, i + 1);
    }
}

/// Whether `a` is at most `b` in text order.
pub fn text_le_exec(a: &str, b: &str) -> (r: bool)
    ensures
        r == text_le(a@, b@),
{
    let ca = chars_of(a);
    let cb = chars_of(b);
    let mut i: usize = 0;
    while i < ca.len()
        invariant
            ca@ == a@,
            cb@ == b@,
            0 <= i <= ca.len(),
            i <= cb.len(),
            forall|k: int| 0 <= k < i ==> ca@[k] == cb@[k],
            text_le(a@, b@) == text_le_from(a@, b@, i as int),
        decreases ca.len() - i,
    {
        if i >= cb.len() {
            return false;
        }
        let x = ca[i];
        let y = cb[i];
        if x != y {
            return x < y;
        }
        i = i + 1;
    }
    true
}

/// A type whose values can be put in order: a total preorder, with the
/// comparison executable.
pub trait SortKey: Sized {
    /// `self` may come before `other`.
    spec fn key_le(self, other: Self) -> bool;

    proof fn lemma_key_total(a: Self, b: Self)
        ensures
            a.key_le(b) || b.key_le(a),
    ;

    proof fn lemma_key_trans(a: Self, b: Self, c: Self)
        requires
            a.key_le(b),
            b.key_le(c),
        ensures
            a.key_le(c),
    ;

    fn key_le_exec(&self, other: &Self) -> (r: bool)
        ensures
            r == self.key_le(*other),
    ;
}

/// Every element may come before each later one.
pub open spec fn sorted_by_key<T: SortKey>(s: Seq<T>) -> bool {
    forall|i: int, j: int| 0 <= i < j < s.len() ==> (#[trigger] s[i]).key_le(#[trigger] s[j])
}

/// Neither element comes before the other: they tie.
pub open spec fn key_tie<T: SortKey>(a: T, b: T) -> bool {
    a.key_le(b) && b.key_le(a)
}

/// `pos` places each element of `out` at a distinct position of `v` holding
/// it, and tied elements keep the order of their positions.
pub open spec fn stable_arrangement<T: SortKey>(out: Seq<T>, v: Seq<T>, pos: Seq<int>) -> bool {
    &&& pos.len() == out.len()
    &&& forall|k: int| 0 <= k < out.len() ==> 0 <= #[trigger] pos[k] < v.len() && out[k] == v[pos[k]]
    &&& forall|k1: int, k2: int|
        0 <= k1 < k2 < out.len() ==> #[trigger] pos[k1] != #[trigger] pos[k2]
    &&& forall|k1: int, k2: int|
        0 <= k1 < k2 < out.len() && key_tie(#[trigger] out[k1], #[trigger] out[k2]) ==> pos[k1]
            < pos[k2]
}

/// The elements of `v` in order; tied elements keep their order (the
/// elements are taken from the back and each goes in front of the tied
/// ones already placed).
pub fn sort_by_key<T: SortKey>(v: Vec<T>) -> (r: Vec<T>)
    ensures
        sorted_by_key(r@),
        r@.to_multiset() == v@.to_multiset(),
        r@.len() == v@.len(),
        exists|pos: Seq<int>| stable_arrangement(r@, v@, pos),
{
    let ghost v0 = v@;
    let mut rest = v;
    let mut out: Vec<T> = Vec::new();
    let ghost mut pos: Seq<int> = Seq::empty();
    proof {
        broadcast use vstd::seq_lib::group_to_multiset_ensures;

        assert(out@.to_multiset() =~= Multiset::<T>::empty());
        assert(out@.to_multiset().add(rest@.to_multiset()) =~= v@.to_multiset());
    }
    while rest.len() > 0
        invariant
            sorted_by_key(out@),
            out@.to_multiset().add(rest@.to_multiset()) == v@.to_multiset(),
            out@.len() + rest@.len() == v@.len(),
            v0 == v@,
            rest@ == v0.take(rest@.len() as int),
            stable_arrangement(out@, v0, pos),
            forall|k: int| 0 <= k < pos.len() ==> rest@.len() <= #[trigger] pos[k],
        decreases rest.len(),
    {
        let ghost before = rest@;
        let x = rest.pop().unwrap();
        let ghost xi = rest@.len() as int;
        proof {
            assert(before =~= rest@.push(x));
            assert(x == v0[xi]);
            assert(rest@ =~= v0.take(xi));
            vstd::seq_lib::to_multiset_build(rest@, x);
        }
        let mut p: usize = 0;
        while p < out.len()
            invariant
                p <= out.len(),
                forall|j: int| 0 <= j < p ==> !x.key_le(#[trigger] out@[j]),
            ensures
                p <= out.len(),
                forall|j: int| 0 <= j < p ==> !x.key_le(#[trigger] out@[j]),
                p < out.len() ==> x.key_le(out@[p as int]),
            decreases out.len() - p,
        {
            if x.key_le_exec(&out[p]) {
                break;
            }
            p = p + 1;
        }
        let ghost old_out = out@;
        proof {
            assert forall|j: int| 0 <= j < p implies (#[trigger] old_out[j]).key_le(x) by {
                T::lemma_key_total(old_out[j], x);
            }
            if p < old_out.len() {
                assert(x.key_le(old_out[p as int]));
                assert forall|q: int| p <= q < old_out.len() implies x.key_le(
                    #[trigger] old_out[q],
                ) by {
                    if q > p {
                        T::lemma_key_trans(x, old_out[p as int], old_out[q]);
                    }
                }
            }
        }
        let ghost old_pos = pos;
        out.insert(p, x);
        proof {
            pos = old_pos.insert(p as int, xi);
            assert forall|k: int| 0 <= k < out@.len() implies 0 <= #[trigger] pos[k] < v0.len()
                && out@[k] == v0[pos[k]] by {
                if k > p {
                    assert(pos[k] == old_pos[k - 1] && out@[k] == old_out[k - 1]);
                } else if k < p {
                    assert(pos[k] == old_pos[k] && out@[k] == old_out[k]);
                }
            }
            assert forall|k1: int, k2: int| 0 <= k1 < k2 < out@.len() implies #[trigger] pos[k1]
                != #[trigger] pos[k2] by {
                if k1 == p {
                    assert(old_pos[k2 - 1] >= xi + 1);
                } else if k2 == p {
                    assert(old_pos[k1] >= xi + 1);
                } else {
                    let a = if k1 < p { k1 } else { k1 - 1 };
                    let b = if k2 < p { k2 } else { k2 - 1 };
                    assert(pos[k1] == old_pos[a] && pos[k2] == old_pos[b] && a < b);
                }
            }
            assert forall|k1: int, k2: int|
                0 <= k1 < k2 < out@.len() && key_tie(#[trigger] out@[k1], #[trigger] out@[k2])
                implies pos[k1] < pos[k2] by {
                if k1 == p {
                    assert(old_pos[k2 - 1] >= xi + 1);
                } else if k2 == p {
                    assert(out@[k1] == old_out[k1]);
                    assert(!x.key_le(old_out[k1]));
                } else {
                    let a = if k1 < p { k1 } else { k1 - 1 };
                    let b = if k2 < p { k2 } else { k2 - 1 };
                    assert(pos[k1] == old_pos[a] && pos[k2] == old_pos[b] && a < b);
                    assert(out@[k1] == old_out[a] && out@[k2] == old_out[b]);
                }
            }
            assert forall|k: int| 0 <= k < pos.len() implies rest@.len() <= #[trigger] pos[k] by {
                if k > p {
                    assert(pos[k] == old_pos[k - 1]);
                } else if k < p {
                    assert(pos[k] == old_pos[k]);
                }
            }
            vstd::seq_lib::to_multiset_insert(old_out, p as int, x);
            assert forall|i: int, j: int| 0 <= i < j < out@.len() implies (
            #[trigger] out@[i]).key_le(#[trigger] out@[j]) by {
                if j < p {
                    assert(out@[i] == old_out[i] && out@[j] == old_out[j]);
                } else if j == p {
                    assert(out@[i] == old_out[i]);
                } else if i < p {
                    assert(out@[i] == old_out[i] && out@[j] == old_out[j - 1]);
                    if p < old_out.len() {
                        T::lemma_key_trans(old_out[i], x, old_out[j - 1]);
                    }
                } else if i == p {
                    assert(out@[j] == old_out[j - 1]);
                } else {
                    assert(out@[i] == old_out[i - 1] && out@[j] == old_out[j - 1]);
                }
            }
            assert(out@.to_multiset().add(rest@.to_multiset()) =~= old_out.to_multiset().add(
                before.to_multiset(),
            ));
        }
    }
    proof {
        broadcast use vstd::seq_lib::group_to_multiset_ensures;

        assert(rest@.to_multiset() =~= Multiset::<T>::empty());
        assert(out@.to_multiset().add(rest@.to_multiset()) =~= out@.to_multiset());
        assert(stable_arrangement(out@, v@, pos));
    }
    out
}

} // verus!
