use vstd::prelude::*;

verus! {

/// Failure reported by a collision-resistant hash when the input bit string
/// exceeds the capacity the hash was configured with.
#[derive(Debug, Clone, Copy, PartialEq, Eq, Structural)]
pub struct CrhError {
    /// The length of the rejected input, in bits.
    pub len: usize,
    /// The capacity of the hash, in bits.
    pub capacity: usize,
}

/// The errors surfaced by the commitment scheme. The one caller-facing
/// failure is a pass-through wrapper around the underlying hash rejecting an
/// oversized input. A subgroup violation is a distinct class — an
/// implementation-invariant breach in the group backend, never a caller
/// error — surfaced only by the strict-mode commit.
#[derive(Debug, Clone, Copy, PartialEq, Eq, Structural)]
pub enum CommitmentError {
    Crh(CrhError),
    SubgroupViolation,
}

} // verus!
