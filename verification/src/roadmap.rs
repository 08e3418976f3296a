//! Development timeline and milestones.

use vstd::prelude::*;

verus! {

/// One phase of the development roadmap: its ordinal, the quarter it is
/// planned for, and how far along it is.
pub struct Phase {
    pub number: u8,
    pub quarter: &'static str,
    pub status: Status,
}

/// How far along a roadmap phase is.
pub enum Status {
    Complete,
    InProgress,
    Planned,
}

} // verus!
