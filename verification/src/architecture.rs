//! Technical architecture: the smart-contract layer and the blockchain it
//! is deployed on.

pub mod blockchain;
pub mod contracts;
