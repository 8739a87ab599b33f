//! Proof-gated state-transition engine of a shielded-value pool.
//!
//! The pool admits three operations — shield (deposit), transfer (private
//! move) and unshield (withdrawal) — each authenticated by a zero-knowledge
//! proof submitted against a registered verification key.  This crate holds
//! the admission pipeline: the strict wire codec for proofs, keys, addresses
//! and amounts; the length- and hash-validated key registry; the circular
//! window of historical commitment-tree roots; the capacity-bounded
//! double-spend guard over nullifiers; and the three operations themselves,
//! which compose those parts in a fixed order and fail atomically, with no
//! side effect, on any rejected check.
//!
//! The host ledger supplies what the engine deliberately leaves outside:
//! account storage and access control, the clock that timestamps events, the
//! value-transfer capability that moves withdrawn funds, and the pairing
//! evaluator of a production deployment.  Every function here works on plain
//! values handed in by that host.

pub mod codec;
pub mod constants;
pub mod digest;
pub mod errors;
pub mod events;
pub mod instructions;
pub mod laws;
pub mod pipeline;
pub mod state;
