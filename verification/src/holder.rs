//! The shared bridge holder's decision core.
//!
//! The holder is a process-wide optional-bridge cell behind a
//! mutual-exclusion lock; the lock and the worker spawn live with the
//! embedding application, which calls [`get_or_create`] while holding the
//! lock. The check-then-create rule itself — an occupant is never replaced,
//! a failed creation leaves the cell empty so a later call may retry — is
//! verified here.

use vstd::prelude::*;

verus! {

/// Lazily fills an exclusively held optional slot. An occupied slot is
/// handed back untouched — creation is idempotent, so at most one instance
/// is ever installed. An empty slot is filled with exactly what `create`
/// returned; when creation fails, the creator's own error is surfaced and
/// the slot stays empty, allowing a later retry.
pub fn get_or_create<T, F: FnOnce() -> Result<T, String>>(slot: &mut Option<T>, create: F) -> (r:
    Result<(), String>)
    requires
        create.requires(()),
    ensures
        (*old(slot)) is Some ==> *final(slot) == *old(slot) && r is Ok,
        (*old(slot)) is None ==> (r is Ok <==> (*final(slot)) is Some),
        (*old(slot)) is None && r is Err ==> (*final(slot)) is None,
        (*old(slot)) is None && r is Ok ==> call_ensures(create, (), Ok::<T, String>((*final(slot))->0)),
        (*old(slot)) is None && r is Err ==> call_ensures(create, (), Err::<T, String>(r->Err_0)),
{
    if slot.is_some() {
        Ok(())
    } else {
        match create() {
            Ok(instance) => {
                *slot = Some(instance);
                Ok(())
            },
            Err(e) => Err(e),
        }
    }
}

} // verus!
