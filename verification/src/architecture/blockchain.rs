//! Celo network integration.

use vstd::prelude::*;

verus! {

/// The Celo network a deployment targets: its chain identifier and the RPC
/// endpoint clients speak to.
pub struct CeloConfig {
    pub chain_id: u64,
    pub rpc_url: &'static str,
}

} // verus!
