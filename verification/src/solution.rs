//! The platform's three on-chain components, as namespaces for the parts
//! of the design that concern each.

use vstd::prelude::*;

verus! {

/// The factory contract through which a community deploys a new DAO.
pub struct DaoFactory;

/// The governance engine that runs proposals and voting.
pub struct GovernanceEngine;

/// The vault system that manages a DAO's pooled treasury.
pub struct VaultSystem;

} // verus!
