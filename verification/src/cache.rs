//! The slot in which a cell keeps its decoded value.

use vstd::prelude::*;

verus! {

/// An outcome that lends a value, with the value in place of the reference.
pub open spec fn lent<T, E>(r: Result<&T, E>) -> Result<T, E> {
    match r {
        Ok(v) => Ok(*v),
        Err(e) => Err(e),
    }
}

/// The value in a filled slot.
pub(crate) fn slot_ref<T>(slot: &Option<T>) -> (r: &T)
    requires
        slot is Some,
    ensures
        Some(*r) == *slot,
{
    match slot {
        Some(v) => v,
        None => unreached(),
    }
}

/// The value in a filled slot, for writing: the slot stays filled, with
/// whatever the caller leaves behind the reference.
pub(crate) fn slot_mut<T>(slot: &mut Option<T>) -> (r: &mut T)
    requires
        *old(slot) is Some,
    ensures
        Some(*r) == *old(slot),
        *final(slot) == Some(*final(r)),
    no_unwind
{
    match slot {
        Some(v) => v,
        None => unreached(),
    }
}

} // verus!
