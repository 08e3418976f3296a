//! Social and economic transformation metrics.

use vstd::prelude::*;

verus! {

/// The impact a deployment aims for: members brought on-chain, DAOs
/// created, funds mobilized through vaults, and community infrastructure
/// projects funded.
pub struct ImpactTarget {
    pub users_onboarded: u32,
    pub daos_created: u32,
    pub total_funds_mobilized: u128,
    pub infrastructure_projects: u16,
}

} // verus!
