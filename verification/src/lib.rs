//! MtaaDAO: a blockchain-based platform bringing traditional African
//! community finance (chamas, rotating savings groups) on-chain, with
//! transparent governance, democratic decision-making and yield-generating
//! treasury vaults on the Celo network.
//!
//! This crate is the platform's whitepaper in library form. Each module
//! documents one part of the design and anchors it with the data shapes the
//! platform uses; the few calculations the design fixes exactly, the staking
//! reward table and the voting-power rule, are given as functions whose
//! contracts state the tables in full.

pub mod architecture;
pub mod governance;
pub mod impact;
pub mod risks;
pub mod roadmap;
pub mod solution;
pub mod tokenomics;
pub mod vault;

pub use architecture::blockchain::CeloConfig;
pub use architecture::contracts::MaonoVault;
pub use architecture::contracts::MtaaGovernance;
pub use governance::Proposal;
pub use governance::voting_power;
pub use impact::ImpactTarget;
pub use risks::Mitigation;
pub use risks::Severity;
pub use roadmap::Phase;
pub use roadmap::Status;
pub use solution::DaoFactory;
pub use solution::GovernanceEngine;
pub use solution::VaultSystem;
pub use tokenomics::Distribution;
pub use tokenomics::staking_apy;
pub use tokenomics::staking_apy_spec;
pub use vault::Strategy;
pub use vault::Vault;
