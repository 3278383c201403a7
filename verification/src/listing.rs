//! The order in which the exercises of the course are listed.

use vstd::prelude::*;
use crate::catalog::ExerciseKey;

verus! {

/// Whether `order` lists the places of `keys` in the order of the course:
/// every place once, by chapter and within a chapter by number, and
/// exercises with the same chapter and number in the order in which `keys`
/// holds them.
pub open spec fn is_listing_order(keys: Seq<ExerciseKey>, order: Seq<usize>) -> bool {
    &&& order.len() == keys.len()
    &&& forall|i: int| 0 <= i < order.len() ==> 0 <= #[trigger] order[i] < keys.len()
    &&& forall|i: int, j: int| 0 <= i < j < order.len() ==> order[i] != order[j]
    &&& forall|i: int, j: int|
        0 <= i < j < order.len() ==> !keys[order[j] as int].precedes(keys[order[i] as int])
    &&& forall|i: int, j: int|
        0 <= i < j < order.len() && keys[order[i] as int] == keys[order[j] as int] ==> order[i]
            < order[j]
}

/// The places of `keys` in the order in which the exercises are listed: by
/// chapter, within a chapter by number, and exercises with the same chapter
/// and number in the order in which `keys` holds them.
pub fn listing_order(keys: &Vec<ExerciseKey>) -> (order: Vec<usize>)
    ensures
        is_listing_order(keys@, order@),
{
    let mut order: Vec<usize> = Vec::new();
    let mut k: usize = 0;
    while k < keys.len()
        invariant
            k <= keys.len(),
            order.len() == k,
            forall|i: int| 0 <= i < order.len() ==> 0 <= #[trigger] order[i] < k,
            forall|i: int, j: int| 0 <= i < j < order.len() ==> order[i] != order[j],
            forall|i: int, j: int|
                0 <= i < j < order.len() ==> !keys[order[j] as int].precedes(
                    keys[order[i] as int],
                ),
            forall|i: int, j: int|
                0 <= i < j < order.len() && keys[order[i] as int] == keys[order[j] as int]
                    ==> order[i] < order[j],
        decreases keys.len() - k,
    {
        let key = keys[k];
        let mut p: usize = 0;
        while p < order.len() && !(key.chapter < keys[order[p]].chapter || (key.chapter
            == keys[order[p]].chapter && key.exercise_number < keys[order[p]].exercise_number))
            invariant
                p <= order.len(),
                order.len() == k,
                k < keys.len(),
                key == keys[k as int],
                forall|i: int| 0 <= i < order.len() ==> 0 <= #[trigger] order[i] < k,
                forall|q: int| 0 <= q < p ==> !key.precedes(keys[#[trigger] order[q] as int]),
            decreases order.len() - p,
        {
            p += 1;
        }
        let ghost before = order@;
        proof {
            assert forall|q: int| p <= q < before.len() implies key.precedes(
                keys[#[trigger] before[q] as int],
            ) by {
                if q > p {
                    assert(!keys[before[q] as int].precedes(keys[before[p as int] as int]));
                }
            }
        }
        order.insert(p, k);
        proof {
            let after = order@;
            assert(after == before.insert(p as int, k));
            assert forall|i: int| 0 <= i < after.len() implies after[i] == if i < p {
                before[i]
            } else if i == p {
                k
            } else {
                before[i - 1]
            } by {}
            assert forall|i: int| 0 <= i < after.len() implies 0 <= #[trigger] after[i] < k + 1 by {
                if i < p {
                    assert(before[i] < k);
                } else if i > p {
                    assert(before[i - 1] < k);
                }
            }
            assert forall|i: int, j: int| 0 <= i < j < after.len() implies after[i] != after[j]
                && !keys[after[j] as int].precedes(keys[after[i] as int]) && (keys[after[i] as int]
                == keys[after[j] as int] ==> after[i] < after[j]) by {
                let bi = if i < p { i } else { i - 1 };
                let bj = if j < p { j } else { j - 1 };
                if i != p {
                    assert(after[i] == before[bi]);
                    assert(before[bi] < k);
                }
                if j != p {
                    assert(after[j] == before[bj]);
                    assert(before[bj] < k);
                }
                if i != p && j != p {
                    assert(bi < bj);
                } else if i == p {
                    assert(key.precedes(keys[before[bj] as int]));
                } else {
                    assert(!key.precedes(keys[before[bi] as int]));
                }
            }
        }
        k += 1;
    }
    order
}

} // verus!
