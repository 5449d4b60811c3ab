//! The contract-wide mutex that keeps an entry point from being re-entered
//! through an outside call it makes.
use vstd::prelude::*;

use crate::types::ContractError;

verus! {

/// What acquiring the mutex does when `held` is its state: the result, and
/// the state afterwards.
pub open spec fn lock_outcome(held: bool) -> (Result<(), ContractError>, bool) {
    if held {
        (Err(ContractError::Locked), true)
    } else {
        (Ok(()), true)
    }
}

/// Acquires the mutex `held`. Returns `Err(Locked)`, and leaves it held,
/// if it is held already.
pub fn lock(held: &mut bool) -> (r: Result<(), ContractError>)
    ensures
        (r, *final(held)) == lock_outcome(*old(held)),
{
    if *held {
        return Err(ContractError::Locked);
    }
    *held = true;
    Ok(())
}

/// Releases the mutex `held`.
pub fn unlock(held: &mut bool)
    ensures
        !*final(held),
{
    *held = false;
}

/// While an entry point holds the mutex, a re-entrant call that tries to
/// acquire it is refused with `Locked`; once released, it can be acquired
/// again.
pub proof fn law_no_reentry_while_held(held: bool)
    ensures
        lock_outcome(lock_outcome(held).1).0 == Err::<(), ContractError>(ContractError::Locked),
        lock_outcome(false).0 is Ok,
{
}

/// Acquiring a free mutex succeeds and holds it; acquiring a held one is
/// refused with `Locked` and leaves it held.
pub proof fn law_lock_acquires_free_mutex(held: bool)
    ensures
        !held ==> lock_outcome(held) == (Ok::<(), ContractError>(()), true),
        held ==> lock_outcome(held) == (Err::<(), ContractError>(ContractError::Locked), true),
{
}

} // verus!
