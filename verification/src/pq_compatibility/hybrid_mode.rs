//! Strategies for running classical and post-quantum proofs side by side during a
//! migration.

use vstd::prelude::*;

verus! {

/// How classical and post-quantum proofs are combined in hybrid mode.
#[derive(Debug, Clone, Copy, PartialEq, Eq, Structural)]
pub enum HybridStrategy {
    /// Both proofs must verify.
    RequireBoth,
    /// The post-quantum proof is primary; the classical one is kept as a fallback.
    PqcPrimary,
    /// The classical proof is primary; the post-quantum one is kept for auditing.
    ClassicalPrimary,
}

impl Default for HybridStrategy {
    fn default() -> (r: Self)
        ensures
            r == HybridStrategy::RequireBoth,
    {
        HybridStrategy::RequireBoth
    }
}

} // verus!
