//! The MTAA token economy: supply, distribution and staking incentives.

use vstd::prelude::*;

verus! {

/// How the fixed MTAA supply is split between the community and the
/// remaining allocations (treasury, team, ecosystem, liquidity, sales).
pub struct Distribution {
    pub total_supply: u128,
    pub community_allocation: u128,
}

/// The staking reward table: the annual percentage yield granted for each
/// of the four supported lock periods, and zero for any other period.
pub open spec fn staking_apy_spec(lock_days: u32) -> u8 {
    match lock_days {
        30u32 => 8u8,
        90u32 => 10u8,
        180u32 => 12u8,
        365u32 => 15u8,
        _ => 0u8,
    }
}

/// Staking rewards calculator: the annual percentage yield for a chosen
/// lock period. Only the four tier lengths (30, 90, 180 and 365 days) earn
/// a reward; every other period earns nothing.
pub fn staking_apy(lock_days: u32) -> (apy: u8)
    ensures
        apy == staking_apy_spec(lock_days),
{
    match lock_days {
        30 => 8,
        90 => 10,
        180 => 12,
        365 => 15,
        _ => 0,
    }
}

} // verus!
