//! Rejection kinds of the pool.  Every failed operation aborts whole, with
//! no side effect, and surfaces one of these specific kinds — never a
//! generic failure.

use vstd::prelude::*;

verus! {

/// Why an operation was rejected.
#[derive(Clone, Copy, Debug, PartialEq, Eq)]
pub enum ZkPoolError {
    /// Merkle depth outside `1..=MAX_MERKLE_DEPTH` at initialization.
    InvalidMerkleDepth,
    /// Root window size outside `1..=MAX_ROOT_WINDOW` at initialization.
    InvalidRootWindow,
    /// Circuit identifier other than shield, transfer or unshield.
    InvalidCircuitType,
    /// Claimed verification-key hash differs from the digest of the bytes.
    VkHashMismatch,
    /// Protocol-version hash differs from the pool's registered one.
    AbiHashMismatch,
    /// Submitted public-input count differs from the circuit's fixed count.
    InvalidPublicInputCount,
    /// The pairing evaluator rejected the proof.
    ProofVerificationFailed,
    /// Merkle root not among the recent roots of the window.
    RootNotFound,
    /// Nullifier was already recorded as spent.
    NullifierSpent,
    /// Recipient address does not match the destination account.
    InvalidRecipient,
    /// Underflow computing the net transfer amount.
    ArithmeticOverflow,
    /// Caller is not the registered administrator.
    Unauthorized,
    /// No verification key has been registered for the circuit.
    VkNotSet,
    /// Verification key bytes have the wrong length or a degenerate point.
    InvalidVkData,
    /// Proof bytes have the wrong length or a degenerate curve point.
    InvalidProofData,
    /// A public input exceeds the scalar-field range bound.
    FieldOutOfRange,
    /// An amount word carries non-zero bytes beyond its low 64 bits.
    AmountTooLarge,
    /// Fee exceeds the withdrawn amount.
    FeeExceedsAmount,
    /// The pooled holding cannot cover the requested withdrawal.
    InsufficientBalance,
    /// Nullifier routed to a shard other than the active one.
    InvalidNullifierShard,
    /// All submissions are rejected while the pool is paused.
    PoolPaused,
    /// The nullifier shard is at its hard capacity.
    NullifierCapacityExceeded,
    /// An address word carries non-zero bytes in its reserved upper half.
    InvalidEncoding,
}

} // verus!
