//! Events the pool publishes on success.
//!
//! Each operation returns the events it emits; the host appends them to its
//! observable log.  Events are never re-read by the engine.  Timestamps
//! come from the host's clock and are threaded in by the caller.

use vstd::prelude::*;

verus! {

/// The pool was created.
#[derive(Clone, Copy, Debug, PartialEq, Eq)]
pub struct Initialized {
    pub admin: [u8; 32],
    pub merkle_depth: u8,
    pub root_window: u16,
    pub abi_hash: [u8; 32],
    pub timestamp: i64,
}

/// A verification key was registered or replaced.
#[derive(Clone, Copy, Debug, PartialEq, Eq)]
pub struct VerificationKeySet {
    pub circuit: u8,
    pub vk_hash: [u8; 32],
    pub timestamp: i64,
}

/// A Merkle root was appended to the window.
#[derive(Clone, Copy, Debug, PartialEq, Eq)]
pub struct RootAdded {
    pub root: [u8; 32],
    pub index: u16,
    pub timestamp: i64,
}

/// A hidden note was created.
#[derive(Clone, Copy, Debug, PartialEq, Eq)]
pub struct NewCommitment {
    pub commitment: [u8; 32],
    pub circuit: u8,
    pub timestamp: i64,
}

/// A nullifier was consumed.
#[derive(Clone, Copy, Debug, PartialEq, Eq)]
pub struct NullifierSpent {
    pub nullifier: [u8; 32],
    pub circuit: u8,
    pub timestamp: i64,
}

/// Value left the pool for a public recipient.
#[derive(Clone, Copy, Debug, PartialEq, Eq)]
pub struct Unshielded {
    pub recipient: [u8; 32],
    pub amount: u64,
    pub fee: u64,
    pub nullifier: [u8; 32],
    pub timestamp: i64,
}

/// The pause flag was switched.
#[derive(Clone, Copy, Debug, PartialEq, Eq)]
pub struct PoolPausedChanged {
    pub paused: bool,
    pub admin: [u8; 32],
    pub timestamp: i64,
}

} // verus!
