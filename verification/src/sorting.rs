//! Sorting of raw value vectors.
//!
//! The unordered wrappers compare two collections by sorting both sides and
//! testing the results for equality; two sorted vectors are equal exactly
//! when the multisets of their elements are.

use vstd::prelude::*;

verus! {

use vstd::relations::sorted_by;
use vstd::relations::total_ordering;
use vstd::seq_lib::lemma_sorted_unique;
use vstd::seq_lib::group_to_multiset_ensures;
use vstd::multiset::group_multiset_axioms;

/// Nondecreasing order.
pub open spec fn is_sorted(s: Seq<usize>) -> bool {
    forall|i: int, j: int| 0 <= i < j < s.len() ==> s[i] <= s[j]
}

/// Two sorted sequences holding the same multiset of values are equal.
pub proof fn lemma_sorted_multiset_unique(a: Seq<usize>, b: Seq<usize>)
    requires
        is_sorted(a),
        is_sorted(b),
        a.to_multiset() == b.to_multiset(),
    ensures
        a == b,
{
    let le = |x: usize, y: usize| x <= y;
    assert(total_ordering(le)) by {
        assert forall|x: usize| #[trigger] le(x, x) by {}
        assert forall|x: usize, y: usize| #[trigger] le(x, y) && #[trigger] le(y, x) implies x
            == y by {}
        assert forall|x: usize, y: usize, z: usize|
            #[trigger] le(x, y) && #[trigger] le(y, z) implies le(x, z) by {}
        assert forall|x: usize, y: usize| #[trigger] le(x, y) || #[trigger] le(y, x) by {}
    };
    assert(sorted_by(a, le)) by {
        assert forall|i: int, j: int| 0 <= i < j < a.len() implies #[trigger] le(a[i], a[j]) by {}
    };
    assert(sorted_by(b, le)) by {
        assert forall|i: int, j: int| 0 <= i < j < b.len() implies #[trigger] le(b[i], b[j]) by {}
    };
    lemma_sorted_unique(a, b, le);
}

/// Sorts the vector in place by insertion, keeping its multiset of values.
pub fn sort_values(v: &mut Vec<usize>)
    ensures
        is_sorted(final(v)@),
        final(v)@.to_multiset() == old(v)@.to_multiset(),
        final(v)@.len() == old(v)@.len(),
{
    broadcast use group_to_multiset_ensures;
    broadcast use group_multiset_axioms;

    let mut i: usize = 1;
    while i < v.len()
        invariant
            1 <= i,
            v@.len() < 1 || i <= v@.len(),
            is_sorted(v@.take(i as int)) || v@.len() < 1,
            v@.to_multiset() == old(v)@.to_multiset(),
            v@.len() == old(v)@.len(),
        decreases v@.len() - i,
    {
        let ghost entry = v@;
        let x = v.remove(i);
        let ghost mid = v@;
        proof {
            assert(mid.take(i as int) =~= entry.take(i as int));
            assert(entry[i as int] == x);
            assert(entry.contains(x)) by {
                assert(entry[i as int] == x);
            };
            vstd::seq_lib::to_multiset_remove(entry, i as int);
            assert(mid.to_multiset() == entry.to_multiset().remove(x));
        }
        let mut j: usize = 0;
        while j < i && v[j] <= x
            invariant
                j <= i,
                i <= mid.len(),
                v@ == mid,
                forall|k: int| 0 <= k < j ==> #[trigger] mid[k] <= x,
            decreases i - j,
        {
            j = j + 1;
        }
        proof {
            assert(j == i || mid[j as int] > x);
        }
        v.insert(j, x);
        proof {
            assert(v@ == mid.insert(j as int, x));
            mid.insert_ensures(j as int, x);
            vstd::seq_lib::to_multiset_insert(mid, j as int, x);
            assert(v@.to_multiset() == mid.to_multiset().insert(x));
            assert(v@.to_multiset() =~= entry.to_multiset()) by {
                vstd::seq_lib::to_multiset_contains(entry, x);
                assert(entry.to_multiset().count(x) >= 1);
                assert(v@.to_multiset() == entry.to_multiset().remove(x).insert(x));
            };
            assert(is_sorted(v@.take(i + 1))) by {
                assert forall|a: int, b: int| 0 <= a < b < i + 1 implies #[trigger] v@.take(
                    i + 1,
                )[a] <= #[trigger] v@.take(i + 1)[b] by {
                    let va = v@[a];
                    let vb = v@[b];
                    if a < j {
                        assert(v@[a] == mid[a]);
                        assert(mid[a] <= x);
                    }
                    if b < j {
                        assert(v@[b] == mid[b]);
                    }
                    if a == j {
                        assert(v@[a] == x);
                    }
                    if b == j {
                        assert(v@[b] == x);
                    }
                    if a > j {
                        assert(v@[a] == mid[a - 1]);
                    }
                    if b > j {
                        assert(v@[b] == mid[b - 1]);
                        if (j as int) < b - 1 {
                            assert(mid[j as int] <= mid[b - 1]);
                        }
                    }
                };
            };
        }
        i = i + 1;
    }
    proof {
        if v@.len() >= 1 {
            assert(v@.take(v@.len() as int) =~= v@);
        }
    }
}

/// Compares two raw value vectors element by element.
pub fn vec_values_eq(a: &Vec<usize>, b: &Vec<usize>) -> (r: bool)
    ensures
        r == (a@ == b@),
{
    if a.len() != b.len() {
        return false;
    }
    let mut i: usize = 0;
    while i < a.len()
        invariant
            i <= a@.len(),
            a@.len() == b@.len(),
            forall|k: int| 0 <= k < i ==> a@[k] == b@[k],
        decreases a@.len() - i,
    {
        if a[i] != b[i] {
            assert(a@[i as int] != b@[i as int]);
            return false;
        }
        i = i + 1;
    }
    proof {
        assert(a@ =~= b@);
    }
    true
}

} // verus!
