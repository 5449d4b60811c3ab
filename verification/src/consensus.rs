//! Weighted guardian consensus: the arithmetic and state-transition rules
//! that decide when a task is resolved.
//!
//! Nothing here touches contract storage. The contract's vote entry point
//! gathers what it needs, then hands the task's tally to [`apply_vote`].
use vstd::prelude::*;

verus! {

/// Errors that can arise purely from consensus arithmetic.
#[derive(Clone, Copy, Debug, PartialEq, Eq, Structural)]
pub enum ConsensusError {
    /// Adding the guardian's weight to the accumulated total would overflow `u64`.
    WeightOverflow,
    /// The guardian's voting weight is zero: the vote has no effect.
    ZeroWeight,
}

/// The consensus tally of a single task.
#[derive(Clone, Copy, Debug, PartialEq, Eq, Structural)]
pub struct ConsensusState {
    /// Cumulative reputation weight accrued from all guardian votes so far.
    pub total_weight_accrued: u64,
    /// Number of guardian votes cast (saturating counter).
    pub votes: u32,
    /// `true` once the task has been resolved (never cleared).
    pub is_done: bool,
}

/// The fresh, unresolved tally.
pub open spec fn fresh_state() -> ConsensusState {
    ConsensusState { total_weight_accrued: 0, votes: 0, is_done: false }
}

/// `v + 1`, held at `u32::MAX`.
pub open spec fn saturating_succ(v: u32) -> u32 {
    if v == u32::MAX {
        v
    } else {
        (v + 1) as u32
    }
}

/// The resolution safety property: a resolved tally has met the threshold.
pub open spec fn resolution_invariant(state: ConsensusState, threshold: u64) -> bool {
    state.is_done ==> state.total_weight_accrued >= threshold
}

/// What one vote of `weight` against `threshold` does to the tally `pre`:
/// the result of the call and the tally afterwards.
pub open spec fn vote_outcome(pre: ConsensusState, weight: u64, threshold: u64) -> (
    Result<(), ConsensusError>,
    ConsensusState,
) {
    if weight == 0 {
        (Err(ConsensusError::ZeroWeight), pre)
    } else if pre.total_weight_accrued + weight > u64::MAX {
        (Err(ConsensusError::WeightOverflow), pre)
    } else {
        let total: u64 = (pre.total_weight_accrued + weight) as u64;
        (
            Ok(()),
            ConsensusState {
                total_weight_accrued: total,
                votes: saturating_succ(pre.votes),
                is_done: pre.is_done || total >= threshold,
            },
        )
    }
}

/// The tally after a run of votes `weights`, cast in order; a rejected vote
/// leaves the tally as it was and the run goes on.
pub open spec fn tally_after(pre: ConsensusState, weights: Seq<u64>, threshold: u64) -> ConsensusState
    decreases weights.len(),
{
    if weights.len() == 0 {
        pre
    } else {
        tally_after(vote_outcome(pre, weights[0], threshold).1, weights.drop_first(), threshold)
    }
}

/// The sum of a run of weights.
pub open spec fn weight_sum(weights: Seq<u64>) -> int
    decreases weights.len(),
{
    if weights.len() == 0 {
        0
    } else {
        weights[0] + weight_sum(weights.drop_first())
    }
}

impl ConsensusState {
    /// Creates a fresh, unresolved consensus state.
    pub fn new() -> (s: Self)
        ensures
            s == fresh_state(),
    {
        ConsensusState { total_weight_accrued: 0, votes: 0, is_done: false }
    }
}

/// Applies a single guardian vote of `weight` to the tally `state`, with
/// `threshold` the cumulative weight that resolves the task.
///
/// A zero weight is rejected; the weight is added with a checked addition
/// (an overflow is rejected and leaves the tally as it was); the vote count
/// saturates at `u32::MAX`; the task is resolved once the total meets the
/// threshold, and a resolved task stays resolved.
pub fn apply_vote(state: &mut ConsensusState, weight: u64, threshold: u64) -> (r: Result<
    (),
    ConsensusError,
>)
    ensures
        (r, *final(state)) == vote_outcome(*old(state), weight, threshold),
{
    if weight == 0 {
        return Err(ConsensusError::ZeroWeight);
    }
    state.total_weight_accrued = match state.total_weight_accrued.checked_add(weight) {
        Some(total) => total,
        None => {
            return Err(ConsensusError::WeightOverflow);
        },
    };
    state.votes = state.votes.saturating_add(1);
    if state.total_weight_accrued >= threshold {
        state.is_done = true;
    }
    Ok(())
}

/// Whether `state` satisfies the resolution safety property against
/// `threshold`: a resolved tally must have met the threshold; an unresolved
/// one is always safe.
pub fn resolution_invariant_holds(state: &ConsensusState, threshold: u64) -> (b: bool)
    ensures
        b == resolution_invariant(*state, threshold),
{
    let weight_meets_threshold = state.total_weight_accrued >= threshold;
    if state.is_done {
        weight_meets_threshold
    } else {
        true
    }
}

/// A single non-zero vote on a fresh tally always succeeds; the tally then
/// holds exactly that weight and one vote, and is resolved if and only if
/// the weight meets the threshold.
pub proof fn law_single_vote_on_fresh_tally(weight: u64, threshold: u64)
    requires
        weight > 0,
    ensures
        vote_outcome(fresh_state(), weight, threshold) == (
            Ok::<(), ConsensusError>(()),
            ConsensusState {
                total_weight_accrued: weight,
                votes: 1,
                is_done: weight >= threshold,
            },
        ),
{
}

/// No vote resolves a task below its threshold: if the tally is safe
/// before a vote, it is safe after it, whatever the vote's result.
pub proof fn law_no_resolution_below_threshold(pre: ConsensusState, weight: u64, threshold: u64)
    requires
        resolution_invariant(pre, threshold),
    ensures
        resolution_invariant(vote_outcome(pre, weight, threshold).1, threshold),
{
}

/// On an unresolved tally, a successful vote resolves the task if and only
/// if the new total meets the threshold.
pub proof fn law_resolution_iff_threshold_met(pre: ConsensusState, weight: u64, threshold: u64)
    requires
        !pre.is_done,
        vote_outcome(pre, weight, threshold).0 is Ok,
    ensures
        vote_outcome(pre, weight, threshold).1.is_done
            == (vote_outcome(pre, weight, threshold).1.total_weight_accrued >= threshold),
{
}

/// Resolution is irreversible: a resolved tally stays resolved after any vote.
pub proof fn law_resolution_is_monotone(pre: ConsensusState, weight: u64, threshold: u64)
    requires
        pre.is_done,
    ensures
        vote_outcome(pre, weight, threshold).1.is_done,
{
}

/// A vote whose weight would overflow the total is rejected with
/// `WeightOverflow` and leaves the tally exactly as it was.
pub proof fn law_overflow_is_rejected(pre: ConsensusState, weight: u64, threshold: u64)
    requires
        weight > 0,
        pre.total_weight_accrued + weight > u64::MAX,
    ensures
        vote_outcome(pre, weight, threshold) == (
            Err::<(), ConsensusError>(ConsensusError::WeightOverflow),
            pre,
        ),
{
}

/// A zero-weight vote is rejected with `ZeroWeight` and leaves the tally
/// exactly as it was.
pub proof fn law_zero_weight_is_rejected(pre: ConsensusState, threshold: u64)
    ensures
        vote_outcome(pre, 0, threshold) == (Err::<(), ConsensusError>(ConsensusError::ZeroWeight), pre),
{
}

/// The vote counter never wraps: after any vote it is the old count, or
/// the old count plus one held at `u32::MAX`.
pub proof fn law_vote_counter_saturates(pre: ConsensusState, weight: u64, threshold: u64)
    ensures
        vote_outcome(pre, weight, threshold).0 is Ok ==> vote_outcome(pre, weight, threshold).1.votes
            == saturating_succ(pre.votes),
        vote_outcome(pre, weight, threshold).0 is Err ==> vote_outcome(pre, weight, threshold).1.votes
            == pre.votes,
        vote_outcome(pre, weight, threshold).1.votes >= pre.votes,
{
}

/// With a threshold of zero, the first non-zero vote resolves the task.
pub proof fn law_zero_threshold_resolves_first_vote(weight: u64)
    requires
        weight > 0,
    ensures
        vote_outcome(fresh_state(), weight, 0).0 is Ok,
        vote_outcome(fresh_state(), weight, 0).1.is_done,
{
}

/// A single guardian of weight `u64::MAX` on a fresh tally succeeds and
/// resolves the task against any threshold.
pub proof fn law_max_weight_resolves_any_threshold(threshold: u64)
    ensures
        vote_outcome(fresh_state(), u64::MAX, threshold).0 is Ok,
        vote_outcome(fresh_state(), u64::MAX, threshold).1.total_weight_accrued == u64::MAX,
        vote_outcome(fresh_state(), u64::MAX, threshold).1.is_done,
{
}

/// Weight accumulates across votes: starting from a fresh tally, a non-empty
/// run of non-zero votes whose sum fits in `u64` leaves the sum as total, one vote
/// counted per weight (saturating), and the task resolved if and only if the
/// sum meets the threshold.
pub proof fn law_weight_accumulates(weights: Seq<u64>, threshold: u64)
    requires
        0 < weights.len() <= u32::MAX,
        forall|i: int| 0 <= i < weights.len() ==> weights[i] > 0,
        weight_sum(weights) <= u64::MAX,
    ensures
        tally_after(fresh_state(), weights, threshold).total_weight_accrued == weight_sum(weights),
        tally_after(fresh_state(), weights, threshold).votes == weights.len(),
        tally_after(fresh_state(), weights, threshold).is_done == (weight_sum(weights) >= threshold),
{
    lemma_tally_accumulates(fresh_state(), weights, threshold);
}

proof fn lemma_weight_sum_nonneg(weights: Seq<u64>)
    ensures
        weight_sum(weights) >= 0,
    decreases weights.len(),
{
    if weights.len() > 0 {
        lemma_weight_sum_nonneg(weights.drop_first());
    }
}

proof fn lemma_tally_accumulates(pre: ConsensusState, weights: Seq<u64>, threshold: u64)
    requires
        weights.len() > 0,
        forall|i: int| 0 <= i < weights.len() ==> weights[i] > 0,
        pre.total_weight_accrued + weight_sum(weights) <= u64::MAX,
        pre.votes + weights.len() <= u32::MAX,
        pre.is_done ==> pre.total_weight_accrued >= threshold,
    ensures
        tally_after(pre, weights, threshold).total_weight_accrued == pre.total_weight_accrued
            + weight_sum(weights),
        tally_after(pre, weights, threshold).votes == pre.votes + weights.len(),
        tally_after(pre, weights, threshold).is_done == (pre.is_done || pre.total_weight_accrued
            + weight_sum(weights) >= threshold),
    decreases weights.len(),
{
    let rest = weights.drop_first();
    lemma_weight_sum_nonneg(rest);
    let mid = vote_outcome(pre, weights[0], threshold).1;
    if rest.len() > 0 {
        assert forall|i: int| 0 <= i < rest.len() implies rest[i] > 0 by {
            assert(rest[i] == weights[i + 1]);
        }
        lemma_tally_accumulates(mid, rest, threshold);
    } else {
        assert(tally_after(mid, rest, threshold) == mid);
    }
}

/// Every accepted vote on any tally: a non-zero weight that the total can
/// take is accepted, adds exactly the weight and one vote (held at
/// `u32::MAX`), and leaves the task resolved exactly when it was resolved
/// or the new total meets the threshold.
pub proof fn law_vote_step(pre: ConsensusState, weight: u64, threshold: u64)
    requires
        weight > 0,
        pre.total_weight_accrued + weight <= u64::MAX,
    ensures
        vote_outcome(pre, weight, threshold).0 is Ok,
        vote_outcome(pre, weight, threshold).1.total_weight_accrued == pre.total_weight_accrued
            + weight,
        vote_outcome(pre, weight, threshold).1.votes == (if pre.votes == u32::MAX {
            u32::MAX as int
        } else {
            pre.votes + 1
        }),
        vote_outcome(pre, weight, threshold).1.is_done == (pre.is_done || pre.total_weight_accrued
            + weight >= threshold),
{
}

} // verus!
