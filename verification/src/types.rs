//! The values the contract keeps and reports: tasks, errors, and the
//! operations whose cost can be estimated.
use vstd::prelude::*;

use crate::consensus::ConsensusState;

verus! {

/// A task that guardians vote on.
#[derive(Clone, Copy, Debug, PartialEq, Eq, Structural)]
pub struct Task {
    pub id: u64,
    pub votes: u32,
    pub is_done: bool,
    pub resolved_at: u64,
    pub total_weight_accrued: u64,
    pub is_cancelled: bool,
}

impl Task {
    /// The consensus tally that the task carries.
    pub open spec fn tally(self) -> ConsensusState {
        ConsensusState {
            total_weight_accrued: self.total_weight_accrued,
            votes: self.votes,
            is_done: self.is_done,
        }
    }

    /// The task with its tally replaced by `tally`.
    pub open spec fn with_tally(self, tally: ConsensusState) -> Task {
        Task {
            total_weight_accrued: tally.total_weight_accrued,
            votes: tally.votes,
            is_done: tally.is_done,
            ..self
        }
    }
}

/// The record of a reward stream opened for a task, with `A` the type of
/// the addresses it names.
#[derive(Clone, Copy, Debug, PartialEq, Eq)]
pub struct RewardStream<A> {
    pub task_id: u64,
    pub contributor: A,
    pub drips_contract: A,
    pub active: bool,
}

/// Errors that the contract's entry points return.
#[derive(Clone, Copy, Debug, PartialEq, Eq, Structural)]
pub enum ContractError {
    NotAuthorized,
    DuplicateVote,
    TaskNotVerified,
    StreamAlreadyActive,
    DripsCallFailed,
    AlreadyInitialized,
    NotInitialized,
    NoReputationScore,
    ZeroWeightVote,
    WeightOverflow,
    InsufficientLockedBalance,
    StillGuardian,
    NotGuardian,
    Locked,
    ContractPaused,
    EscrowUnavailable,
    TaskCancelled,
    BatchTooLarge,
    InvalidAddress,
}

/// Every public write operation of the contract, as the argument of the
/// cost estimate.
#[derive(Clone, Copy, Debug, PartialEq, Eq, Structural)]
pub enum Operation {
    /// `register_task`: 2 storage writes (reentrancy lock and task entry).
    RegisterTask,
    /// `vote`: the most complex path: 5+ reads, 2 writes, a conditional
    /// cross-contract call.
    Vote,
    /// `add_guardian`: 1 write and an admin auth check.
    AddGuardian,
    /// `set_reputation`: 1 write and an admin auth check.
    SetReputation,
    /// `lock_tokens`: a token transfer and 2 storage writes.
    LockTokens,
    /// `unlock_tokens`: the same structure as `lock_tokens`.
    UnlockTokens,
    /// `resign_guardian`: 2 writes and a conditional token transfer.
    ResignGuardian,
    /// `set_weight_threshold`: 1 write and admin auth.
    SetWeightThreshold,
    /// `start_reward_stream`: 2 reads, a cross-contract call and 1 write.
    StartRewardStream,
    /// `toggle_pause` / `pause` / `unpause`: 1 read, 1 write, an event.
    TogglePause,
    /// `record_failure`: 1 read, 1 write, a conditional second write.
    RecordFailure,
    /// `reset_circuit_breaker`: 2 writes and admin auth.
    ResetCircuitBreaker,
    /// `upgrade_contract`: a WASM upgrade; the highest fixed platform cost.
    UpgradeContract,
}

} // verus!
