//! Fixed parameters of the pool: circuit identifiers, per-circuit public
//! input counts, and capacity limits.

use vstd::prelude::*;

verus! {

/// Largest Merkle tree depth a pool may be initialized with.
pub const MAX_MERKLE_DEPTH: u8 = 32;

/// Largest number of recent roots a pool may keep.
pub const MAX_ROOT_WINDOW: u16 = 256;

/// Circuit identifier of the shield (deposit) circuit.
pub const CIRCUIT_SHIELD: u8 = 0;

/// Circuit identifier of the transfer (private move) circuit.
pub const CIRCUIT_TRANSFER: u8 = 1;

/// Circuit identifier of the unshield (withdrawal) circuit.
pub const CIRCUIT_UNSHIELD: u8 = 2;

/// Number of public inputs of a shield proof: `[commitment]`.
pub const SHIELD_PUBLIC_INPUTS: usize = 1;

/// Number of public inputs of a transfer proof:
/// `[root, nullifier, new_commitment, fee]`.
pub const TRANSFER_PUBLIC_INPUTS: usize = 4;

/// Number of public inputs of an unshield proof:
/// `[root, nullifier, recipient_lo, recipient_hi, amount, fee]`.
pub const UNSHIELD_PUBLIC_INPUTS: usize = 6;

/// Hard capacity of one nullifier shard: an insert into a full shard fails.
pub const MAX_NULLIFIERS_PER_SHARD: usize = 100000;

/// Conservative exclusive upper bound on the most-significant byte of a
/// little-endian field element of the pairing curve's scalar field.  The
/// modulus is just under 2^254, so any element's top byte stays below this.
pub const FIELD_HIGH_BYTE_BOUND: u8 = 0x30;

} // verus!
