use vstd::prelude::*;

verus! {

/// Stashes the diagnostic message of a crash that is about to unwind, so the
/// surrounding fault boundary can recover it; the boundary owns the slot.
pub fn save_panic_message(slot: &mut Option<String>, message: String)
    ensures
        *final(slot) == Some(message),
{
    *slot = Some(message);
}

/// Recovers the stashed diagnostic, or the generic fallback when nothing was
/// stashed, emptying the slot either way: the decision half of the fault
/// boundary's crash recovery.
pub fn take_panic_message(slot: &mut Option<String>) -> (r: String)
    ensures
        *final(slot) is None,
        match *old(slot) {
            Some(m) => r@ == m@,
            None => r@ == "Unknown error"@,
        },
{
    match slot.take() {
        Some(m) => m,
        None => "Unknown error".to_owned(),
    }
}

} // verus!
