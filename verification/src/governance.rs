//! Democratic governance: proposals and the voting-power rule.

use vstd::prelude::*;

verus! {

/// A governance proposal as tracked through its lifecycle: who raised it,
/// what it is called, and how long its voting window stays open.
pub struct Proposal {
    pub id: u128,
    pub proposer: String,
    pub title: String,
    pub voting_period_days: u8,
}

/// Voting power held by a member with the given token balance and
/// reputation score. The reputation multiplier described in the governance
/// design is not applied at this stage: the power equals the token balance,
/// whatever the reputation score is.
#[allow(unused_variables)]
pub fn voting_power(tokens: u128, reputation: u32) -> (power: u128)
    ensures
        power == tokens,
{
    tokens
}

} // verus!
