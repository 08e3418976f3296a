//! Treasury management: vault accounting state and yield strategies.

use vstd::prelude::*;

verus! {

/// A treasury vault's share accounting: assets deposited, shares issued
/// against them, and the current net asset value per share.
pub struct Vault {
    pub total_deposits: u128,
    pub total_shares: u128,
    pub nav_per_share: u128,
}

/// The yield strategies a vault can route its assets into: Moola Market
/// lending, Ubeswap liquidity provision, or native CELO staking.
pub enum Strategy {
    Moola,
    Ubeswap,
    CeloStaking,
}

} // verus!
