//! Types shared across the library that stand for the platform's core
//! vocabulary.
use vstd::prelude::*;

verus! {

/// The platform's four risk levels, ordered from least to most risky.
#[derive(Debug, Clone, Copy, PartialEq, Eq, Hash, PartialOrd, Ord, Structural)]
pub enum RiskLevel {
    Low,
    Medium,
    High,
    Critical,
}

} // verus!
