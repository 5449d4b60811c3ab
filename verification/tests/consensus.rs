use vero_core_contracts::consensus::{
    apply_vote, resolution_invariant_holds, ConsensusError, ConsensusState,
};

#[test]
fn test_apply_vote_resolves_at_threshold() {
    let mut state = ConsensusState::new();
    apply_vote(&mut state, 300, 300).unwrap();
    assert!(state.is_done);
    assert_eq!(state.total_weight_accrued, 300);
    assert_eq!(state.votes, 1);
}

#[test]
fn test_apply_vote_does_not_resolve_below_threshold() {
    let mut state = ConsensusState::new();
    apply_vote(&mut state, 299, 300).unwrap();
    assert!(!state.is_done);
    assert_eq!(state.total_weight_accrued, 299);
}

#[test]
fn test_apply_vote_resolves_above_threshold() {
    let mut state = ConsensusState::new();
    apply_vote(&mut state, 500, 300).unwrap();
    assert!(state.is_done);
    assert_eq!(state.total_weight_accrued, 500);
}

#[test]
fn test_apply_vote_accumulates_across_multiple_votes() {
    let mut state = ConsensusState::new();
    apply_vote(&mut state, 100, 300).unwrap();
    assert!(!state.is_done);
    apply_vote(&mut state, 100, 300).unwrap();
    assert!(!state.is_done);
    apply_vote(&mut state, 100, 300).unwrap();
    assert!(state.is_done);
    assert_eq!(state.total_weight_accrued, 300);
    assert_eq!(state.votes, 3);
}

#[test]
fn test_apply_vote_rejects_zero_weight() {
    let mut state = ConsensusState::new();
    let err = apply_vote(&mut state, 0, 300).unwrap_err();
    assert_eq!(err, ConsensusError::ZeroWeight);
    assert!(!state.is_done);
    assert_eq!(state.total_weight_accrued, 0);
}

#[test]
fn test_apply_vote_overflow_protection() {
    let mut state = ConsensusState::new();
    state.total_weight_accrued = u64::MAX;
    let err = apply_vote(&mut state, 1, 300).unwrap_err();
    assert_eq!(err, ConsensusError::WeightOverflow);
    assert_eq!(state.total_weight_accrued, u64::MAX);
    assert!(!state.is_done);
}

#[test]
fn test_votes_counter_saturates() {
    let mut state = ConsensusState::new();
    state.votes = u32::MAX;
    apply_vote(&mut state, 1, u64::MAX).unwrap();
    assert_eq!(state.votes, u32::MAX);
}

#[test]
fn test_is_done_monotone_once_set() {
    let mut state = ConsensusState::new();
    apply_vote(&mut state, 300, 300).unwrap();
    assert!(state.is_done);
    apply_vote(&mut state, 100, 300).unwrap();
    assert!(state.is_done);
}

#[test]
fn test_zero_threshold_first_vote_resolves() {
    let mut state = ConsensusState::new();
    apply_vote(&mut state, 1, 0).unwrap();
    assert!(state.is_done);
}

#[test]
fn test_resolution_invariant_holds_after_vote() {
    let mut state = ConsensusState::new();
    apply_vote(&mut state, 400, 300).unwrap();
    assert!(resolution_invariant_holds(&state, 300));
}

#[test]
fn test_resolution_invariant_holds_before_threshold() {
    let mut state = ConsensusState::new();
    apply_vote(&mut state, 200, 300).unwrap();
    assert!(resolution_invariant_holds(&state, 300));
    assert!(!state.is_done);
}

// Checks of the laws on concrete values.

#[test]
fn fresh_state_is_empty() {
    let state = ConsensusState::new();
    assert_eq!(state.total_weight_accrued, 0);
    assert_eq!(state.votes, 0);
    assert!(!state.is_done);
}

#[test]
fn single_vote_on_fresh_tally_sets_exact_tally() {
    let mut state = ConsensusState::new();
    assert_eq!(apply_vote(&mut state, 7, 8), Ok(()));
    assert_eq!(
        state,
        ConsensusState { total_weight_accrued: 7, votes: 1, is_done: false }
    );
}

#[test]
fn overflow_on_resolved_tally_keeps_it_resolved() {
    let mut state = ConsensusState { total_weight_accrued: u64::MAX - 1, votes: 4, is_done: true };
    let before = state;
    assert_eq!(apply_vote(&mut state, 2, 10), Err(ConsensusError::WeightOverflow));
    assert_eq!(state, before);
    assert!(state.is_done);
}

#[test]
fn zero_weight_leaves_tally_unchanged() {
    let mut state = ConsensusState { total_weight_accrued: 12, votes: 3, is_done: false };
    let before = state;
    assert_eq!(apply_vote(&mut state, 0, 10), Err(ConsensusError::ZeroWeight));
    assert_eq!(state, before);
}

#[test]
fn max_weight_single_guardian_resolves() {
    let mut state = ConsensusState::new();
    assert_eq!(apply_vote(&mut state, u64::MAX, u64::MAX), Ok(()));
    assert_eq!(state.total_weight_accrued, u64::MAX);
    assert!(state.is_done);
}

#[test]
fn two_votes_accumulate_their_sum() {
    let mut state = ConsensusState::new();
    apply_vote(&mut state, u64::MAX / 2, u64::MAX).unwrap();
    apply_vote(&mut state, u64::MAX / 2, u64::MAX).unwrap();
    assert_eq!(state.total_weight_accrued, u64::MAX - 1);
    assert_eq!(state.votes, 2);
    assert!(!state.is_done);
}

#[test]
fn resolution_invariant_detects_unsafe_state() {
    let state = ConsensusState { total_weight_accrued: 10, votes: 1, is_done: true };
    assert!(!resolution_invariant_holds(&state, 11));
    assert!(resolution_invariant_holds(&state, 10));
    let open = ConsensusState { total_weight_accrued: 0, votes: 0, is_done: false };
    assert!(resolution_invariant_holds(&open, u64::MAX));
}
