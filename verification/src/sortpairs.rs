//! An in-place sort of `(key, position)` pairs.
//!
//! Records pulled from the database are ordered by a timestamp key; carrying
//! the original position along as a tie-breaker makes the order strict, so a
//! sorted result is unique and matches what a stable sort produces.

use vstd::prelude::*;
use vstd::multiset::group_multiset_axioms;
use vstd::seq_lib::{to_multiset_contains, to_multiset_update};

verus! {

/// The sort order: by key, then by original position.
pub open spec fn pair_leq(a: (i128, usize), b: (i128, usize)) -> bool {
    a.0 < b.0 || (a.0 == b.0 && a.1 <= b.1)
}

/// Strict version of [`pair_leq`].
pub open spec fn spec_pair_lt(a: (i128, usize), b: (i128, usize)) -> bool {
    a.0 < b.0 || (a.0 == b.0 && a.1 < b.1)
}

/// Every pair of entries is ordered by [`pair_leq`].
pub open spec fn pairs_sorted(s: Seq<(i128, usize)>) -> bool {
    forall|i: int, j: int| 0 <= i < j < s.len() ==> pair_leq(s[i], s[j])
}

fn pair_lt(a: (i128, usize), b: (i128, usize)) -> (r: bool)
    ensures
        r == spec_pair_lt(a, b),
{
    a.0 < b.0 || (a.0 == b.0 && a.1 < b.1)
}


/// Exchanging two entries of a sequence leaves its multiset unchanged.
pub proof fn lemma_swap_preserves_multiset<A>(s: Seq<A>, t: Seq<A>, a: int, b: int)
    requires
        0 <= a < b < s.len(),
        t == s.update(a, s[b]).update(b, s[a]),
    ensures
        t.to_multiset() == s.to_multiset(),
{
    broadcast use group_multiset_axioms;

    let mid = s.update(a, s[b]);
    to_multiset_update(s, a, s[b]);
    to_multiset_update(mid, b, s[a]);
    assert(mid[b] == s[b]);
    to_multiset_contains(s, s[a]);
    to_multiset_contains(s, s[b]);
    to_multiset_contains(mid, s[b]);
    assert(s.contains(s[a]));
    assert(s.contains(s[b]));
    assert(mid.contains(s[b]));
    assert forall|x: A| t.to_multiset().count(x) == s.to_multiset().count(x) by {
        assert(t.to_multiset().count(x) == mid.to_multiset().insert(s[a]).remove(mid[b]).count(x));
    }
    assert(t.to_multiset() =~= s.to_multiset());
}

/// Insertion sort. The entries end up ordered by [`pair_leq`] and are, as a
/// multiset, the entries the vector started with.
pub fn sort_pairs(v: &mut Vec<(i128, usize)>)
    ensures
        pairs_sorted(final(v)@),
        final(v)@.to_multiset() == old(v)@.to_multiset(),
{
    let n = v.len();
    if n <= 1 {
        return ;
    }
    let mut i: usize = 1;
    while i < n
        invariant
            n == v@.len(),
            1 <= i <= n,
            pairs_sorted(v@.subrange(0, i as int)),
            v@.to_multiset() == old(v)@.to_multiset(),
        decreases n - i,
    {
        proof {
            assert forall|a: int, b: int|
                0 <= a < b <= i as int && b != i as int implies pair_leq(v@[a], v@[b]) by {
                assert(v@.subrange(0, i as int)[a] == v@[a]);
                assert(v@.subrange(0, i as int)[b] == v@[b]);
            }
        }
        let mut j: usize = i;
        while j > 0 && pair_lt(v[j], v[j - 1])
            invariant
                n == v@.len(),
                i < n,
                0 <= j <= i,
                v@.to_multiset() == old(v)@.to_multiset(),
                forall|a: int, b: int|
                    0 <= a < b <= i as int && b != j as int ==> pair_leq(v@[a], v@[b]),
            decreases j,
        {
            let ghost prev = v@;
            let t = v[j];
            v[j] = v[j - 1];
            v[j - 1] = t;
            proof {
                assert(v@ =~= prev.update(j - 1, prev[j as int]).update(j as int, prev[j - 1]));
                lemma_swap_preserves_multiset(prev, v@, j - 1, j as int);
            }
            j -= 1;
        }
        proof {
            assert forall|a: int, b: int| 0 <= a < b <= i as int implies pair_leq(
                v@[a],
                v@[b],
            ) by {
                if b == j as int && j > 0 {
                    assert(pair_leq(v@[j - 1], v@[j as int]));
                    if a < j - 1 {
                        assert(pair_leq(v@[a], v@[j - 1]));
                    }
                }
            }
        }
        i += 1;
        proof {
            assert(pairs_sorted(v@.subrange(0, i as int)));
        }
    }
    proof {
        assert(v@ =~= v@.subrange(0, n as int));
    }
}


/// A sorted permutation of pairs built as `(keys[k], k)` still carries each
/// position with its key, and no pair appears twice.
pub proof fn lemma_sorted_pairs_keyed(
    initial: Seq<(i128, usize)>,
    sorted: Seq<(i128, usize)>,
    keys: Seq<i128>,
)
    requires
        initial.len() == keys.len(),
        forall|k: int|
            0 <= k < initial.len() ==> (#[trigger] initial[k]).0 == keys[k] && initial[k].1 == k,
        sorted.to_multiset() == initial.to_multiset(),
    ensures
        sorted.len() == keys.len(),
        forall|k: int|
            0 <= k < sorted.len() ==> (#[trigger] sorted[k]).1 < keys.len() && sorted[k].0
                == keys[sorted[k].1 as int],
        forall|a: int, b: int| 0 <= a < b < sorted.len() ==> sorted[a] != sorted[b],
{
    broadcast use vstd::seq_lib::group_to_multiset_ensures;

    assert(sorted.len() == keys.len()) by {
        assert(sorted.to_multiset().len() == sorted.len());
        assert(initial.to_multiset().len() == initial.len());
    }
    assert forall|k: int| 0 <= k < sorted.len() implies (#[trigger] sorted[k]).1 < keys.len()
        && sorted[k].0 == keys[sorted[k].1 as int] by {
        assert(sorted.to_multiset().count(sorted[k]) > 0) by {
            assert(sorted.contains(sorted[k]));
        }
        assert(initial.to_multiset().count(sorted[k]) > 0);
        assert(initial.contains(sorted[k]));
        let w = choose|w: int| 0 <= w < initial.len() && initial[w] == sorted[k];
        assert(initial[w].1 == w);
    }
    assert forall|a: int, b: int| 0 <= a < b < sorted.len() implies sorted[a] != sorted[b] by {
        if sorted[a] == sorted[b] {
            let x = sorted[a];
            let without = sorted.remove(b);
            assert(without.to_multiset() == sorted.to_multiset().remove(x));
            assert(without[a] == x);
            assert(without.contains(x));
            assert(without.to_multiset().count(x) > 0);
            assert(sorted.to_multiset().count(x) >= 2);
            let wa = choose|w: int| 0 <= w < initial.len() && initial[w] == x;
            let shorter = initial.remove(wa);
            assert(shorter.to_multiset() == initial.to_multiset().remove(x));
            assert(shorter.to_multiset().count(x) > 0);
            assert(shorter.contains(x));
            let wb = choose|w: int| 0 <= w < shorter.len() && shorter[w] == x;
            assert(initial[wa].1 == wa);
            if wb < wa {
                assert(shorter[wb] == initial[wb]);
                assert(initial[wb].1 == wb);
            } else {
                assert(shorter[wb] == initial[wb + 1]);
                assert(initial[wb + 1].1 == wb + 1);
            }
        }
    }
}

} // verus!
