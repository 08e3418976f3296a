//! Risk assessment and mitigation strategies.

use vstd::prelude::*;

verus! {

/// How severe a risk is if it materializes, from system-breaking to minor.
pub enum Severity {
    Critical,
    High,
    Medium,
    Low,
}

/// A mitigation plan: the severity of the risk it answers and the
/// preventive measures put in place against it.
pub struct Mitigation {
    pub risk: Severity,
    pub prevention: Vec<&'static str>,
}

} // verus!
