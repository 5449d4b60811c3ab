//! Guardian reputation and the voting power it confers.
use vstd::prelude::*;

verus! {

/// The voting power of a guardian whose registered reputation score is
/// `reputation` (`None` when no score is registered).
///
/// The raw score is the weight: higher reputation yields proportionally
/// more influence in the weighted consensus; a score of zero carries no
/// voting power and is rejected when the guardian votes.
pub fn calculate_voting_power(reputation: Option<u64>) -> (power: Option<u64>)
    ensures
        power == reputation,
{
    reputation
}

} // verus!
