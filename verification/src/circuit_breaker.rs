//! The emergency stop: an admin pause switch and a failure counter that
//! pauses the contract once too many failures have been recorded.
use vstd::prelude::*;

use crate::types::ContractError;

verus! {

/// Recorded failures beyond this many trip the breaker.
pub const FAILURE_THRESHOLD: u32 = 50;

/// Returns `Err(ContractPaused)` if the contract is paused.
pub fn require_not_paused(paused: bool) -> (r: Result<(), ContractError>)
    ensures
        r == (if paused {
            Err(ContractError::ContractPaused)
        } else {
            Ok(())
        }),
{
    if paused {
        return Err(ContractError::ContractPaused);
    }
    Ok(())
}

/// The pause switch together with the count of recorded failures.
#[derive(Clone, Copy, Debug, PartialEq, Eq, Structural)]
pub struct CircuitBreaker {
    pub failure_count: u32,
    pub paused: bool,
}

/// A breaker with no failures recorded, not paused.
pub open spec fn cleared_breaker() -> CircuitBreaker {
    CircuitBreaker { failure_count: 0, paused: false }
}

/// One recorded failure: whether it trips the breaker, and the breaker after it.
pub open spec fn failure_step(b: CircuitBreaker) -> (bool, CircuitBreaker) {
    let count: u32 = (b.failure_count + 1) as u32;
    let trips = count > FAILURE_THRESHOLD && !b.paused;
    (trips, CircuitBreaker { failure_count: count, paused: b.paused || trips })
}

/// The breaker with its pause switch flipped.
pub open spec fn toggled(b: CircuitBreaker) -> CircuitBreaker {
    CircuitBreaker { paused: !b.paused, ..b }
}

/// The breaker after `n` recorded failures.
pub open spec fn after_failures(b: CircuitBreaker, n: nat) -> CircuitBreaker
    decreases n,
{
    if n == 0 {
        b
    } else {
        failure_step(after_failures(b, (n - 1) as nat)).1
    }
}

impl CircuitBreaker {
    /// The breaker as the contract stores it: an absent pause flag means not
    /// paused, an absent counter means no failures.
    pub fn from_storage(paused: Option<bool>, failure_count: Option<u32>) -> (b: Self)
        ensures
            b.paused == (paused == Some(true)),
            b.failure_count == (match failure_count {
                Some(c) => c,
                None => 0,
            }),
    {
        let paused = match paused {
            Some(p) => p,
            None => false,
        };
        let failure_count: u32 = match failure_count {
            Some(c) => c,
            None => 0,
        };
        CircuitBreaker { failure_count, paused }
    }

    /// Counts one failure, and pauses the contract if the count now exceeds
    /// [`FAILURE_THRESHOLD`] and it is not paused already. Returns whether
    /// this failure tripped the breaker.
    pub fn record_failure(&mut self) -> (tripped: bool)
        requires
            old(self).failure_count < u32::MAX,
        ensures
            (tripped, *final(self)) == failure_step(*old(self)),
    {
        let count: u32 = self.failure_count + 1;
        self.failure_count = count;
        if count > FAILURE_THRESHOLD && !self.paused {
            self.paused = true;
            return true;
        }
        false
    }

    /// Clears the failure count and unpauses the contract.
    pub fn reset(&mut self)
        ensures
            *final(self) == cleared_breaker(),
    {
        self.failure_count = 0;
        self.paused = false;
    }

    /// Flips the pause switch.
    pub fn toggle_pause(&mut self)
        ensures
            *final(self) == toggled(*old(self)),
    {
        self.paused = !self.paused;
    }

    /// Pauses the contract.
    pub fn pause(&mut self)
        ensures
            final(self).paused,
            final(self).failure_count == old(self).failure_count,
    {
        self.paused = true;
    }

    /// Unpauses the contract.
    pub fn unpause(&mut self)
        ensures
            !final(self).paused,
            final(self).failure_count == old(self).failure_count,
    {
        self.paused = false;
    }
}

/// From a cleared breaker, `n` recorded failures leave a count of `n`, and
/// the contract is paused if and only if `n` exceeds the threshold: fifty
/// failures leave it running, the fifty-first trips it.
pub proof fn law_breaker_trips_after_threshold(n: nat)
    requires
        n <= u32::MAX,
    ensures
        after_failures(cleared_breaker(), n).failure_count == n,
        after_failures(cleared_breaker(), n).paused == (n > FAILURE_THRESHOLD),
    decreases n,
{
    if n > 0 {
        law_breaker_trips_after_threshold((n - 1) as nat);
    }
}

/// Toggling the pause switch twice restores the breaker.
pub proof fn law_toggle_twice_restores(b: CircuitBreaker)
    ensures
        toggled(toggled(b)) == b,
{
}

/// Once paused, further failures never unpause the contract.
pub proof fn law_failures_keep_pause(b: CircuitBreaker)
    requires
        b.paused,
    ensures
        failure_step(b).1.paused,
        !failure_step(b).0,
{
}

/// The breaker trips at most once: a failure trips it only while the
/// contract is running.
pub proof fn law_trip_only_when_running(b: CircuitBreaker)
    ensures
        failure_step(b).0 ==> !b.paused && failure_step(b).1.paused,
{
}

/// Every recorded failure counts one, and trips the breaker exactly when
/// the new count exceeds fifty while the contract is running, whatever the
/// count it starts from (an admin may have unpaused without a reset): the
/// contract is paused afterwards when it was paused or the count exceeds
/// fifty.
pub proof fn law_failure_trips_past_threshold(b: CircuitBreaker)
    requires
        b.failure_count < u32::MAX,
    ensures
        failure_step(b).1.failure_count == b.failure_count + 1,
        failure_step(b).0 == (b.failure_count + 1 > 50 && !b.paused),
        failure_step(b).1.paused == (b.paused || b.failure_count + 1 > 50),
{
}

/// Toggling flips the pause switch and keeps the failure count.
pub proof fn law_toggle_flips_pause(b: CircuitBreaker)
    ensures
        toggled(b).paused == !b.paused,
        toggled(b).failure_count == b.failure_count,
{
}

} // verus!
