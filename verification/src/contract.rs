//! The decisions behind the contract's entry points: each takes what the
//! entry point has read from storage and says what to answer and what to
//! write back.
use vstd::prelude::*;

use crate::address::{is_zero_strkey, require_not_zero};
use crate::consensus::{apply_vote, vote_outcome, ConsensusState};
use crate::reputation::calculate_voting_power;
use crate::types::{ContractError, Operation, Task};

verus! {

/// The cumulative weight that resolves a task while the admin has set none.
pub const DEFAULT_WEIGHT_THRESHOLD: u64 = 300;

/// The version of the contract's logic.
pub const LOGIC_VERSION: u32 = 1;

/// The Vero guardian-consensus contract.
pub struct VeroCore;

/// What the vote entry point has read before it decides.
#[derive(Clone, Copy, Debug)]
pub struct VoteRequest {
    /// Whether the contract is paused.
    pub paused: bool,
    /// Whether the reentrancy mutex is held.
    pub lock_held: bool,
    /// Whether the voter is a registered guardian.
    pub is_guardian: bool,
    /// Whether the staking token has been configured.
    pub token_initialized: bool,
    /// The stored minimum stake, if any.
    pub lock_threshold: Option<i128>,
    /// The voter's stored locked balance, if any.
    pub locked_balance: Option<i128>,
    /// Whether the voter has voted on the task already.
    pub already_voted: bool,
    /// The voter's registered reputation score, if any.
    pub reputation: Option<u64>,
    /// The stored record of the task voted on, if any.
    pub task: Option<Task>,
    /// The stored weight threshold, if any.
    pub weight_threshold: Option<u64>,
}

/// What an accepted vote changes.
#[derive(Clone, Copy, Debug, PartialEq, Eq, Structural)]
pub struct VotePlan {
    /// The task record with the vote counted.
    pub task: Task,
    /// The weight the vote carried.
    pub weight: u64,
    /// Whether the task's weight now meets the threshold, so that the
    /// escrowed funds are to be released.
    pub releases_escrow: bool,
}

/// What came of asking the vault to release a task's funds.
#[derive(Clone, Copy, Debug, PartialEq, Eq, Structural)]
pub enum EscrowOutcome {
    /// No release was asked for (none was due, or no vault is configured).
    NotCalled,
    /// The vault released the funds.
    Released,
    /// The vault call failed.
    Failed,
}

/// A stored value, or `default` when none is stored.
pub open spec fn stored_or<T>(stored: Option<T>, default: T) -> T {
    match stored {
        Some(v) => v,
        None => default,
    }
}

/// The weight threshold in force when `stored` is what storage holds.
pub open spec fn effective_weight_threshold(stored: Option<u64>) -> u64 {
    stored_or(stored, DEFAULT_WEIGHT_THRESHOLD)
}

/// The error with which the vote entry point refuses `req`, if it does: the
/// first of its conditions, taken in order, that `req` fails.
pub open spec fn vote_rejection(req: VoteRequest) -> Option<ContractError> {
    if req.paused {
        Some(ContractError::ContractPaused)
    } else if req.lock_held {
        Some(ContractError::Locked)
    } else if !req.is_guardian {
        Some(ContractError::NotAuthorized)
    } else if !req.token_initialized {
        Some(ContractError::NotInitialized)
    } else if stored_or(req.locked_balance, 0) <= stored_or(req.lock_threshold, 0) {
        Some(ContractError::InsufficientLockedBalance)
    } else if req.already_voted {
        Some(ContractError::DuplicateVote)
    } else if req.reputation is None {
        Some(ContractError::NoReputationScore)
    } else if req.reputation->0 == 0 {
        Some(ContractError::ZeroWeightVote)
    } else if req.task is None {
        Some(ContractError::NotAuthorized)
    } else if req.task->0.is_cancelled {
        Some(ContractError::TaskCancelled)
    } else if req.task->0.total_weight_accrued + req.reputation->0 > u64::MAX {
        Some(ContractError::WeightOverflow)
    } else {
        None
    }
}

/// The answer of the vote entry point to `req`.
pub open spec fn vote_result(req: VoteRequest) -> Result<VotePlan, ContractError> {
    match vote_rejection(req) {
        Some(e) => Err(e),
        None => {
            let threshold: u64 = effective_weight_threshold(req.weight_threshold);
            let weight: u64 = req.reputation->0;
            let task = req.task->0.with_tally(
                vote_outcome(req.task->0.tally(), weight, threshold).1,
            );
            Ok(VotePlan { task, weight, releases_escrow: task.total_weight_accrued >= threshold })
        },
    }
}

/// The ballot list and the voter's mark on the task after recording the vote
/// of `voter` on `task_id` in `ballots`.
pub open spec fn recorded_vote<G>(ballots: Seq<(u64, G)>, task_id: u64, voter: G) -> (Seq<(u64, G)>, bool) {
    (ballots.push((task_id, voter)), true)
}

/// The instruction-unit cost estimate of each operation.
pub open spec fn estimated_cost(op: Operation) -> u64 {
    match op {
        Operation::RegisterTask => 1_000_000,
        Operation::Vote => 1_960_000,
        Operation::AddGuardian => 700_000,
        Operation::SetReputation => 700_000,
        Operation::LockTokens => 1_250_000,
        Operation::UnlockTokens => 1_300_000,
        Operation::ResignGuardian => 1_400_000,
        Operation::SetWeightThreshold => 650_000,
        Operation::StartRewardStream => 1_330_000,
        Operation::TogglePause => 730_000,
        Operation::RecordFailure => 880_000,
        Operation::ResetCircuitBreaker => 800_000,
        Operation::UpgradeContract => 2_500_000,
    }
}

impl VeroCore {
    /// Decides an initialization request naming the staking token whose
    /// strkey text is `token`, with `initialized` whether the contract is
    /// initialized already: the all-zero account or contract id is refused
    /// with `InvalidAddress`, then a second initialization with
    /// `AlreadyInitialized`.
    pub fn initialize(token: &[u8], initialized: bool) -> (r: Result<(), ContractError>)
        ensures
            r == (if is_zero_strkey(token@) {
                Err(ContractError::InvalidAddress)
            } else if initialized {
                Err(ContractError::AlreadyInitialized)
            } else {
                Ok(())
            }),
    {
        require_not_zero(token)?;
        if initialized {
            return Err(ContractError::AlreadyInitialized);
        }
        Ok(())
    }

    /// Whether the contract is paused, with `stored` the stored pause flag;
    /// an absent flag means not paused.
    pub fn is_paused(stored: Option<bool>) -> (paused: bool)
        ensures
            paused == stored_or(stored, false),
    {
        match stored {
            Some(p) => p,
            None => false,
        }
    }

    /// The weight threshold in force, with `stored` the stored threshold;
    /// [`DEFAULT_WEIGHT_THRESHOLD`] while none is stored.
    pub fn get_weight_threshold(stored: Option<u64>) -> (threshold: u64)
        ensures
            threshold == effective_weight_threshold(stored),
            stored matches Some(t) ==> threshold == t,
            stored is None ==> threshold == 300,
    {
        match stored {
            Some(t) => t,
            None => DEFAULT_WEIGHT_THRESHOLD,
        }
    }

    /// Decides a guardian's vote on a task from what the entry point read.
    ///
    /// The conditions are tested in this order: the contract is not paused, the
    /// reentrancy mutex is free, the voter is a guardian, the staking token
    /// is configured, the voter's locked balance exceeds the minimum stake
    /// (an absent value counts as 0), the voter has not voted on the task,
    /// the voter has a reputation score, and it is not zero; the task exists,
    /// is not cancelled, and the weight does not overflow its total. An
    /// accepted vote carries the reputation score as weight and is counted by
    /// [`apply_vote`] against the weight threshold in force; the escrow is
    /// released whenever the task's total then meets that threshold.
    pub fn vote(req: &VoteRequest) -> (r: Result<VotePlan, ContractError>)
        ensures
            r == vote_result(*req),
    {
        if req.paused {
            return Err(ContractError::ContractPaused);
        }
        if req.lock_held {
            return Err(ContractError::Locked);
        }
        if !req.is_guardian {
            return Err(ContractError::NotAuthorized);
        }
        if !req.token_initialized {
            return Err(ContractError::NotInitialized);
        }
        let threshold: i128 = match req.lock_threshold {
            Some(t) => t,
            None => 0,
        };
        let locked_balance: i128 = match req.locked_balance {
            Some(b) => b,
            None => 0,
        };
        if locked_balance <= threshold {
            return Err(ContractError::InsufficientLockedBalance);
        }
        if req.already_voted {
            return Err(ContractError::DuplicateVote);
        }
        let weight: u64 = match calculate_voting_power(req.reputation) {
            Some(w) => w,
            None => {
                return Err(ContractError::NoReputationScore);
            },
        };
        if weight == 0 {
            return Err(ContractError::ZeroWeightVote);
        }
        let task = match req.task {
            Some(t) => t,
            None => {
                return Err(ContractError::NotAuthorized);
            },
        };
        if task.is_cancelled {
            return Err(ContractError::TaskCancelled);
        }
        let weight_threshold: u64 = Self::get_weight_threshold(req.weight_threshold);
        let mut tally = ConsensusState {
            total_weight_accrued: task.total_weight_accrued,
            votes: task.votes,
            is_done: task.is_done,
        };
        match apply_vote(&mut tally, weight, weight_threshold) {
            Ok(()) => {},
            Err(_) => {
                return Err(ContractError::WeightOverflow);
            },
        }
        let counted = Task {
            total_weight_accrued: tally.total_weight_accrued,
            votes: tally.votes,
            is_done: tally.is_done,
            ..task
        };
        Ok(
            VotePlan {
                task: counted,
                weight,
                releases_escrow: counted.total_weight_accrued >= weight_threshold,
            },
        )
    }

    /// Settles an accepted vote `plan` once the escrow release it called for,
    /// if any, has been tried: a failed release refuses the vote with
    /// `EscrowUnavailable`; otherwise the task record to store is returned.
    pub fn settle_vote(plan: &VotePlan, escrow: EscrowOutcome) -> (r: Result<Task, ContractError>)
        ensures
            plan.releases_escrow && escrow == EscrowOutcome::Failed ==> r == Err::<
                Task,
                ContractError,
            >(ContractError::EscrowUnavailable),
            !(plan.releases_escrow && escrow == EscrowOutcome::Failed) ==> r == Ok::<
                Task,
                ContractError,
            >(plan.task),
    {
        if plan.releases_escrow {
            match escrow {
                EscrowOutcome::Failed => {
                    return Err(ContractError::EscrowUnavailable);
                },
                _ => {},
            }
        }
        Ok(plan.task)
    }

    /// Records the accepted vote of `voter` on the task `task_id`: appends
    /// the pair to the ballot list `ballots`, the (task id, voter) pairs in
    /// the order cast, and sets `voted`, the stored mark of the voter's vote
    /// on the task that later requests read as `already_voted`.
    pub fn record_vote<G>(ballots: &mut Vec<(u64, G)>, voted: &mut bool, task_id: u64, voter: G)
        ensures
            (final(ballots)@, *final(voted)) == recorded_vote(old(ballots)@, task_id, voter),
    {
        ballots.push((task_id, voter));
        *voted = true;
    }

    /// The version of the contract's logic.
    pub fn get_version() -> (v: u32)
        ensures
            v == LOGIC_VERSION,
    {
        LOGIC_VERSION
    }

    /// Returns the estimated instruction-unit cost of the operation `op`: a
    /// conservative upper bound, calibrated against the metering constants
    /// of Soroban protocol 21. It reads and writes nothing.
    pub fn get_estimated_cost(op: Operation) -> (cost: u64)
        ensures
            cost == estimated_cost(op),
    {
        match op {
            Operation::RegisterTask => 1_000_000,
            Operation::Vote => 1_960_000,
            Operation::AddGuardian => 700_000,
            Operation::SetReputation => 700_000,
            Operation::LockTokens => 1_250_000,
            Operation::UnlockTokens => 1_300_000,
            Operation::ResignGuardian => 1_400_000,
            Operation::SetWeightThreshold => 650_000,
            Operation::StartRewardStream => 1_330_000,
            Operation::TogglePause => 730_000,
            Operation::RecordFailure => 880_000,
            Operation::ResetCircuitBreaker => 800_000,
            Operation::UpgradeContract => 2_500_000,
        }
    }
}

/// Every operation has a non-zero cost estimate, above the base invocation
/// overhead of 500,000 instruction units.
pub proof fn law_costs_above_base_overhead(op: Operation)
    ensures
        estimated_cost(op) > 500_000,
{
}

/// Voting is the most expensive write operation: its estimate is at least
/// that of every operation other than a contract upgrade.
pub proof fn law_vote_is_most_expensive_write(op: Operation)
    requires
        op != Operation::UpgradeContract,
    ensures
        estimated_cost(Operation::Vote) >= estimated_cost(op),
{
}

/// A contract upgrade carries the highest estimate of all operations.
pub proof fn law_upgrade_is_overall_maximum(op: Operation)
    ensures
        estimated_cost(Operation::UpgradeContract) >= estimated_cost(op),
{
}

/// A paused contract refuses every vote with `ContractPaused`.
pub proof fn law_paused_contract_rejects_vote(req: VoteRequest)
    requires
        req.paused,
    ensures
        vote_result(req) == Err::<VotePlan, ContractError>(ContractError::ContractPaused),
{
}

/// A guardian never votes twice on a task: a vote from a voter who has
/// voted on the task already is refused.
pub proof fn law_no_double_vote(req: VoteRequest)
    requires
        req.already_voted,
    ensures
        vote_result(req) is Err,
{
}

/// Only a guardian whose locked balance exceeds the minimum stake can vote.
pub proof fn law_vote_requires_stake(req: VoteRequest)
    requires
        !req.is_guardian || !req.token_initialized || stored_or(req.locked_balance, 0)
            <= stored_or(req.lock_threshold, 0),
    ensures
        vote_result(req) is Err,
{
}

/// A cancelled or unknown task never counts a vote.
pub proof fn law_cancelled_task_never_counts(req: VoteRequest)
    requires
        req.task is None || req.task->0.is_cancelled,
    ensures
        vote_result(req) is Err,
{
}

/// An accepted vote carries the voter's reputation score as its non-zero
/// weight, adds exactly that weight and one vote (saturating) to the task,
/// and leaves the task's id, cancellation and resolution time unchanged.
pub proof fn law_vote_counts_reputation_once(req: VoteRequest)
    requires
        vote_result(req) is Ok,
    ensures
        req.reputation == Some(vote_result(req)->Ok_0.weight),
        vote_result(req)->Ok_0.weight > 0,
        req.task is Some,
        vote_result(req)->Ok_0.task.total_weight_accrued == req.task->0.total_weight_accrued
            + vote_result(req)->Ok_0.weight,
        vote_result(req)->Ok_0.task.votes == crate::consensus::saturating_succ(req.task->0.votes),
        vote_result(req)->Ok_0.task.id == req.task->0.id,
        vote_result(req)->Ok_0.task.is_cancelled == req.task->0.is_cancelled,
        vote_result(req)->Ok_0.task.resolved_at == req.task->0.resolved_at,
{
}

/// Votes never resolve a task below the weight threshold in force: a task
/// that was safe before an accepted vote is safe after it, and an
/// unresolved task becomes resolved exactly when its total meets the
/// threshold, which is also exactly when the escrow is released.
pub proof fn law_vote_resolves_only_at_threshold(req: VoteRequest)
    requires
        vote_result(req) is Ok,
        req.task->0.is_done ==> req.task->0.total_weight_accrued >= match req.weight_threshold {
            Some(t) => t,
            None => 300,
        },
    ensures
        vote_result(req)->Ok_0.task.is_done ==> vote_result(req)->Ok_0.task.total_weight_accrued
            >= match req.weight_threshold {
            Some(t) => t,
            None => 300,
        },
        !req.task->0.is_done ==> vote_result(req)->Ok_0.task.is_done == vote_result(
            req,
        )->Ok_0.releases_escrow,
        vote_result(req)->Ok_0.releases_escrow == (vote_result(req)->Ok_0.task.total_weight_accrued
            >= match req.weight_threshold {
            Some(t) => t,
            None => 300,
        }),
{
}

/// When a vote is accepted: a vote that passes every condition of the entry
/// point (running contract, free mutex, a guardian, a configured token, a
/// locked balance above the minimum stake, no earlier vote, a non-zero
/// reputation, an existing task that is not cancelled and whose total can
/// take the weight) is accepted. Its weight is the reputation score, the
/// task gains exactly that weight and one vote (held at `u32::MAX`), and the
/// task is resolved, and the escrow released, exactly when the new total
/// meets the stored weight threshold, or 300 while none is stored.
pub proof fn law_vote_accepted_when_all_conditions_hold(req: VoteRequest)
    requires
        !req.paused,
        !req.lock_held,
        req.is_guardian,
        req.token_initialized,
        (match req.locked_balance {
            Some(b) => b,
            None => 0,
        }) > (match req.lock_threshold {
            Some(t) => t,
            None => 0,
        }),
        !req.already_voted,
        req.reputation matches Some(w) && w > 0,
        req.task matches Some(t) && !t.is_cancelled && t.total_weight_accrued + req.reputation->0
            <= u64::MAX,
    ensures
        vote_result(req) is Ok,
        vote_result(req)->Ok_0.weight == req.reputation->0,
        vote_result(req)->Ok_0.task.total_weight_accrued == req.task->0.total_weight_accrued
            + req.reputation->0,
        vote_result(req)->Ok_0.task.votes == (if req.task->0.votes == u32::MAX {
            u32::MAX as int
        } else {
            req.task->0.votes + 1
        }),
        vote_result(req)->Ok_0.task.id == req.task->0.id,
        vote_result(req)->Ok_0.task.resolved_at == req.task->0.resolved_at,
        !vote_result(req)->Ok_0.task.is_cancelled,
        vote_result(req)->Ok_0.task.is_done == (req.task->0.is_done || req.task->0.total_weight_accrued
            + req.reputation->0 >= match req.weight_threshold {
            Some(t) => t,
            None => 300,
        }),
        vote_result(req)->Ok_0.releases_escrow == (req.task->0.total_weight_accrued
            + req.reputation->0 >= match req.weight_threshold {
            Some(t) => t,
            None => 300,
        }),
{
}

/// The weight threshold in force is exactly the stored one, or 300 while
/// none is stored.
pub proof fn law_threshold_in_force_is_stored_value(t: u64)
    ensures
        effective_weight_threshold(Some(t)) == t,
        effective_weight_threshold(None) == 300,
{
}

/// Recording a vote appends: the ballots afterwards are the old ballots,
/// kept in order as a prefix, followed by the new pair, and the voter's mark
/// is set.
pub proof fn law_recording_appends_ballot<G>(ballots: Seq<(u64, G)>, task_id: u64, voter: G)
    ensures
        recorded_vote(ballots, task_id, voter).0.len() == ballots.len() + 1,
        forall|i: int| 0 <= i < ballots.len() ==> recorded_vote(ballots, task_id, voter).0[i]
            == ballots[i],
        recorded_vote(ballots, task_id, voter).0[ballots.len() as int] == (task_id, voter),
        recorded_vote(ballots, task_id, voter).1,
{
}

/// A guardian's vote counts once per task: when a vote of `voter` on
/// `task_id` is accepted, decided with `already_voted` read from the voter's
/// mark `voted`, and recorded in the ballots `ballots`, then the voter had
/// not voted on the task before, the ballots now hold the pair, and any later
/// request of the same voter on the same task, decided with the mark as the
/// recording left it, is refused.
pub proof fn law_vote_counts_once_per_task<G>(
    ballots: Seq<(u64, G)>,
    voted: bool,
    task_id: u64,
    voter: G,
    first: VoteRequest,
    second: VoteRequest,
)
    requires
        first.already_voted == voted,
        vote_result(first) is Ok,
        second.already_voted == recorded_vote(ballots, task_id, voter).1,
    ensures
        !voted,
        recorded_vote(ballots, task_id, voter).0.contains((task_id, voter)),
        vote_result(second) is Err,
{
    let recorded = recorded_vote(ballots, task_id, voter).0;
    assert(recorded[ballots.len() as int] == (task_id, voter));
}

} // verus!
