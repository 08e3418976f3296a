//! The smart contracts the platform deploys per DAO.

use vstd::prelude::*;

verus! {

/// The vault contract's share-accounting state, following the ERC4626
/// tokenized-vault standard.
pub struct MaonoVault {
    pub total_assets: u128,
    pub shares_issued: u128,
    pub nav_per_share: u128,
}

/// The governance contract's parameters: how long votes stay open and what
/// share of voting power must take part for a result to bind.
pub struct MtaaGovernance {
    pub voting_period: u64,
    pub quorum_threshold: u8,
}

} // verus!
