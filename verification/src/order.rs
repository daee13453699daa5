//! The order in which the slots of a composite are assigned.
//!
//! A composite is built along a path. `from_a` starts from nothing and
//! assigns slot A. Each of `with_b` to `with_h` assigns the slot it is named
//! for: it demands [`may_assign`] of the number of slots that the composite
//! it consumes has assigned, and returns a composite with one slot more
//! assigned.

use crate::slots::Slot;
use vstd::prelude::*;

verus! {

/// Whether `slot` is the one to assign next when `filled` slots have been
/// assigned: it is, exactly when the slots before it are the ones assigned.
pub open spec fn may_assign(filled: nat, slot: Slot) -> bool {
    slot.position() == filled
}

/// Whether the slots of `path` can be assigned one after another, in the order
/// of `path`, when `filled` slots have been assigned already.
pub open spec fn valid_path(filled: nat, path: Seq<Slot>) -> bool
    decreases path.len(),
{
    if path.len() == 0 {
        true
    } else {
        &&& may_assign(filled, path[0])
        &&& valid_path(filled + 1, path.drop_first())
    }
}

/// Along a valid path each step assigns the slot that directly follows the
/// ones assigned before it.
pub proof fn lemma_valid_path_in_order(filled: nat, path: Seq<Slot>)
    requires
        valid_path(filled, path),
    ensures
        forall|step: int|
            0 <= step < path.len() ==> (#[trigger] path[step]).position() == filled + step,
    decreases path.len(),
{
    if path.len() > 0 {
        lemma_valid_path_in_order(filled + 1, path.drop_first());
        assert forall|step: int| 0 <= step < path.len() implies (#[trigger] path[step]).position()
            == filled + step by {
            if step > 0 {
                assert(path[step] == path.drop_first()[step - 1]);
            }
        }
    }
}

/// No construction assigns a slot before a slot that precedes it: when a valid
/// path from nothing assigns a slot at some step, every earlier slot has been
/// assigned at an earlier step. In particular slot C is never assigned before
/// slot B.
pub proof fn lemma_earlier_slots_come_first(path: Seq<Slot>, step: int, earlier: Slot)
    requires
        valid_path(0, path),
        0 <= step < path.len(),
        earlier.position() < path[step].position(),
    ensures
        exists|before: int| 0 <= before < step && path[before] == earlier,
{
    lemma_valid_path_in_order(0, path);
    let before = earlier.position() as int;
    assert(path[before] == earlier);
}

/// A valid path from nothing assigns no slot twice and at most eight slots.
pub proof fn lemma_valid_path_is_short(path: Seq<Slot>)
    requires
        valid_path(0, path),
    ensures
        path.len() <= 8,
        forall|i: int, j: int| 0 <= i < j < path.len() ==> path[i] != path[j],
{
    lemma_valid_path_in_order(0, path);
    if path.len() > 8 {
        assert(path[8].position() == 8);
    }
}

} // verus!
