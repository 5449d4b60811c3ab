//! Token stakes: a guardian must keep more than the minimum stake locked in
//! the contract to vote, and gets it back once no longer a guardian.
use vstd::prelude::*;

use crate::contract::stored_or;
use crate::types::ContractError;

verus! {

/// The answer to a request to lock `amount` more tokens on top of the stored
/// locked balance `balance`: the new locked balance, unless the mutex is held.
pub open spec fn lock_result(balance: Option<i128>, amount: i128, lock_held: bool) -> Result<
    i128,
    ContractError,
> {
    if lock_held {
        Err(ContractError::Locked)
    } else {
        Ok((stored_or(balance, 0) + amount) as i128)
    }
}

/// The answer to a request to take back an account's stake `balance`: the
/// refund, unless the mutex is held or the account is still a guardian.
pub open spec fn unlock_result(is_guardian: bool, balance: Option<i128>, lock_held: bool) -> Result<
    i128,
    ContractError,
> {
    if lock_held {
        Err(ContractError::Locked)
    } else if is_guardian {
        Err(ContractError::StillGuardian)
    } else {
        Ok(stored_or(balance, 0))
    }
}

/// The answer to a guardian's resignation with stake `balance`: the refund,
/// unless the mutex is held or the account is no guardian.
pub open spec fn resign_result(is_guardian: bool, balance: Option<i128>, lock_held: bool) -> Result<
    i128,
    ContractError,
> {
    if lock_held {
        Err(ContractError::Locked)
    } else if !is_guardian {
        Err(ContractError::NotGuardian)
    } else {
        Ok(stored_or(balance, 0))
    }
}

/// Decides a request to lock `amount` more tokens on top of the stored
/// locked balance `balance` (absent counts as zero), with `lock_held` the
/// state of the reentrancy mutex: refused with `Locked` while the mutex is
/// held, otherwise the new locked balance is the sum.
pub fn lock_tokens(balance: Option<i128>, amount: i128, lock_held: bool) -> (r: Result<
    i128,
    ContractError,
>)
    requires
        i128::MIN <= stored_or(balance, 0) + amount <= i128::MAX,
    ensures
        r == lock_result(balance, amount, lock_held),
{
    if lock_held {
        return Err(ContractError::Locked);
    }
    let current: i128 = match balance {
        Some(b) => b,
        None => 0,
    };
    Ok(current + amount)
}

/// Decides a request to take back the locked tokens of an account, with
/// `is_guardian` whether it is a guardian and `balance` its stored locked
/// balance: refused with `Locked` while the mutex is held, then with
/// `StillGuardian` for a guardian; otherwise the whole balance (absent
/// counts as zero) is refunded.
pub fn unlock_tokens(is_guardian: bool, balance: Option<i128>, lock_held: bool) -> (r: Result<
    i128,
    ContractError,
>)
    ensures
        r == unlock_result(is_guardian, balance, lock_held),
{
    if lock_held {
        return Err(ContractError::Locked);
    }
    if is_guardian {
        return Err(ContractError::StillGuardian);
    }
    match balance {
        Some(b) => Ok(b),
        None => Ok(0),
    }
}

/// Decides a guardian's resignation, with `is_guardian` whether the account
/// is a guardian and `balance` its stored locked balance: refused with
/// `Locked` while the mutex is held, then with `NotGuardian` for an account
/// that is no guardian; otherwise the whole balance (absent counts as zero)
/// is refunded.
pub fn resign_guardian(is_guardian: bool, balance: Option<i128>, lock_held: bool) -> (r: Result<
    i128,
    ContractError,
>)
    ensures
        r == resign_result(is_guardian, balance, lock_held),
{
    if lock_held {
        return Err(ContractError::Locked);
    }
    if !is_guardian {
        return Err(ContractError::NotGuardian);
    }
    match balance {
        Some(b) => Ok(b),
        None => Ok(0),
    }
}

/// Every locked token comes back: after `amount` is locked on top of
/// `balance`, a guardian who resigns, or an account that is no guardian and
/// unlocks, is refunded the whole sum.
pub proof fn law_stake_is_refunded_in_full(balance: Option<i128>, amount: i128)
    requires
        i128::MIN <= stored_or(balance, 0) + amount <= i128::MAX,
    ensures
        lock_result(balance, amount, false) is Ok,
        resign_result(true, Some(lock_result(balance, amount, false)->Ok_0), false) == Ok::<
            i128,
            ContractError,
        >((stored_or(balance, 0) + amount) as i128),
        unlock_result(false, Some(lock_result(balance, amount, false)->Ok_0), false) == Ok::<
            i128,
            ContractError,
        >((stored_or(balance, 0) + amount) as i128),
{
}

/// A guardian's stake stays locked: unlocking is refused for as long as the
/// account is a guardian.
pub proof fn law_guardian_stake_stays_locked(balance: Option<i128>, lock_held: bool)
    ensures
        unlock_result(true, balance, lock_held) is Err,
{
}

/// Locking adds the amount to the stored balance (absent counts as zero);
/// unlocking by an account that is no guardian, and resigning by a
/// guardian, refund the stored balance; all three are refused with `Locked`
/// while the mutex is held.
pub proof fn law_stake_arithmetic(is_guardian: bool, balance: Option<i128>, amount: i128)
    ensures
        lock_result(balance, amount, false) == Ok::<i128, ContractError>(
            ((match balance {
                Some(b) => b,
                None => 0,
            }) + amount) as i128,
        ),
        unlock_result(false, balance, false) == Ok::<i128, ContractError>(
            match balance {
                Some(b) => b,
                None => 0,
            },
        ),
        resign_result(true, balance, false) == Ok::<i128, ContractError>(
            match balance {
                Some(b) => b,
                None => 0,
            },
        ),
        resign_result(false, balance, false) == Err::<i128, ContractError>(
            ContractError::NotGuardian,
        ),
        unlock_result(true, balance, false) == Err::<i128, ContractError>(
            ContractError::StillGuardian,
        ),
        lock_result(balance, amount, true) == Err::<i128, ContractError>(ContractError::Locked),
        unlock_result(is_guardian, balance, true) == Err::<i128, ContractError>(
            ContractError::Locked,
        ),
        resign_result(is_guardian, balance, true) == Err::<i128, ContractError>(
            ContractError::Locked,
        ),
{
}

} // verus!
