//! Slots for live entities. An entity's handle is the number of its slot: it
//! stays the same for as long as the entity lives, and a freed slot is taken
//! again by a later entity.

use vstd::prelude::*;

verus! {

/// Whether `k` is the first free slot of `slots`, or their number where none
/// is free.
pub open spec fn is_first_free<T>(slots: Seq<Option<T>>, k: int) -> bool {
    &&& 0 <= k <= slots.len()
    &&& forall|j: int| 0 <= j < k ==> (#[trigger] slots[j]) is Some
    &&& k < slots.len() ==> slots[k] is None
}

/// The handle that the next entity added to `slots` gets.
pub open spec fn first_free<T>(slots: Seq<Option<T>>) -> int {
    choose|k: int| is_first_free(slots, k)
}

/// `slots` with `value` added in the first free slot, or in a new slot at the
/// end where none is free.
pub open spec fn with_added<T>(slots: Seq<Option<T>>, value: T) -> Seq<Option<T>> {
    let k = first_free(slots);
    if k < slots.len() {
        slots.update(k, Some(value))
    } else {
        slots.push(Some(value))
    }
}

/// Exactly one number is the first free slot of `slots`.
pub proof fn lemma_first_free_is_unique<T>(slots: Seq<Option<T>>, k: int)
    requires
        is_first_free(slots, k),
    ensures
        first_free(slots) == k,
{
    let c = first_free(slots);
    assert(is_first_free(slots, c));
    if c < k {
        assert(slots[c] is Some);
    }
    if k < c {
        assert(slots[k] is Some);
    }
}

/// Every sequence of slots has a first free slot.
pub proof fn lemma_first_free_exists<T>(slots: Seq<Option<T>>)
    ensures
        is_first_free(slots, first_free(slots)),
    decreases slots.len(),
{
    if slots.len() == 0 {
        assert(is_first_free(slots, 0));
    } else {
        let front = slots.drop_last();
        lemma_first_free_exists(front);
        let k = first_free(front);
        if k < front.len() {
            assert(is_first_free(slots, k)) by {
                assert forall|j: int| 0 <= j < k implies (#[trigger] slots[j]) is Some by {
                    assert(front[j] is Some);
                }
                assert(front[k] is None);
            }
        } else if slots.last() is None {
            assert(is_first_free(slots, k)) by {
                assert forall|j: int| 0 <= j < k implies (#[trigger] slots[j]) is Some by {
                    assert(front[j] is Some);
                }
            }
        } else {
            assert(is_first_free(slots, k + 1)) by {
                assert forall|j: int| 0 <= j < k + 1 implies (#[trigger] slots[j]) is Some by {
                    if j < k {
                        assert(front[j] is Some);
                    }
                }
            }
        }
    }
}

/// Adds `value` to `slots` and returns its handle.
pub fn add_slot<T>(slots: &mut Vec<Option<T>>, value: T) -> (handle: usize)
    ensures
        handle == first_free(old(slots)@),
        is_first_free(old(slots)@, handle as int),
        final(slots)@ == with_added(old(slots)@, value),
{
    let mut i: usize = 0;
    while i < slots.len() && slots[i].is_some()
        invariant
            i <= slots.len(),
            *slots == *old(slots),
            forall|j: int| 0 <= j < i ==> (#[trigger] slots@[j]) is Some,
        decreases slots.len() - i,
    {
        i += 1;
    }
    proof {
        lemma_first_free_is_unique(slots@, i as int);
    }
    if i < slots.len() {
        slots.set(i, Some(value));
    } else {
        slots.push(Some(value));
    }
    i
}

} // verus!
