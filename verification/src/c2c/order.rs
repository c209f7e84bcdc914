//! Stable ordering by a numeric key.

use vstd::prelude::*;

verus! {

/// Whether `order` lists positions of `keys` by ascending key, and by
/// ascending position where keys are equal: the order a stable sort gives.
pub open spec fn is_stable_order(keys: Seq<u64>, order: Seq<usize>) -> bool {
    &&& order.len() == keys.len()
    &&& forall|i: int| 0 <= i < order.len() ==> (#[trigger] order[i]) < keys.len()
    &&& forall|i: int, j: int|
        0 <= i < j < order.len() ==> {
            ||| keys[(#[trigger] order[i]) as int] < keys[(#[trigger] order[j]) as int]
            ||| keys[order[i] as int] == keys[order[j] as int] && order[i] < order[j]
        }
}

/// The items in the given order of their positions.
pub open spec fn arranged<T>(items: Seq<T>, order: Seq<usize>) -> Seq<T> {
    Seq::new(order.len(), |i: int| items[order[i] as int])
}

/// The first `n` keys are listed in stable order.
spec fn ordered_prefix(keys: Seq<u64>, order: Seq<usize>, n: int) -> bool {
    &&& order.len() == n
    &&& forall|i: int| 0 <= i < order.len() ==> (#[trigger] order[i]) < n
    &&& forall|i: int, j: int|
        0 <= i < j < order.len() ==> {
            ||| keys[(#[trigger] order[i]) as int] < keys[(#[trigger] order[j]) as int]
            ||| keys[order[i] as int] == keys[order[j] as int] && order[i] < order[j]
        }
}

/// The positions of `keys` in the order of a stable sort by key.
pub fn stable_order(keys: &[u64]) -> (order: Vec<usize>)
    ensures
        is_stable_order(keys@, order@),
{
    let mut order: Vec<usize> = Vec::new();
    let mut k: usize = 0;
    while k < keys.len()
        invariant
            k <= keys.len(),
            ordered_prefix(keys@, order@, k as int),
        decreases keys.len() - k,
    {
        let mut p: usize = order.len();
        while p > 0 && keys[order[p - 1]] > keys[k]
            invariant
                p <= order.len(),
                k < keys.len(),
                ordered_prefix(keys@, order@, k as int),
                forall|i: int| p <= i < order.len() ==> keys@[(#[trigger] order@[i]) as int] > keys@[k as int],
            decreases p,
        {
            p -= 1;
        }
        let ghost before = order@;
        order.insert(p, k);
        proof {
            assert forall|i: int, j: int| 0 <= i < j < order@.len() implies {
                ||| keys@[(#[trigger] order@[i]) as int] < keys@[(#[trigger] order@[j]) as int]
                ||| keys@[order@[i] as int] == keys@[order@[j] as int] && order@[i] < order@[j]
            } by {
                let bi = if i < p { i } else { i - 1 };
                let bj = if j < p { j } else { j - 1 };
                if i == p {
                    assert(order@[j] == before[bj]);
                } else if j == p {
                    assert(order@[i] == before[bi]);
                    if p > 0 {
                        assert(before[p - 1] == order@[p - 1]);
                        if i < p - 1 {
                            assert(before[i] == order@[i]);
                        }
                    }
                } else {
                    assert(order@[i] == before[bi]);
                    assert(order@[j] == before[bj]);
                }
            }
            assert forall|i: int| 0 <= i < order@.len() implies (#[trigger] order@[i]) < k + 1 by {
                if i < p {
                    assert(order@[i] == before[i]);
                } else if i > p {
                    assert(order@[i] == before[i - 1]);
                }
            }
        }
        k += 1;
    }
    order
}

} // verus!
