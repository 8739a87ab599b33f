//! Durable state of the pool: the configuration record, the per-circuit
//! verification-key slots, the circular window of recent roots, and the
//! capacity-bounded nullifier shard.

use vstd::prelude::*;

use crate::codec::{all_zero, word_eq};
use crate::constants::{
    CIRCUIT_SHIELD, CIRCUIT_TRANSFER, CIRCUIT_UNSHIELD, MAX_NULLIFIERS_PER_SHARD,
    SHIELD_PUBLIC_INPUTS, TRANSFER_PUBLIC_INPUTS, UNSHIELD_PUBLIC_INPUTS,
};
use crate::errors::ZkPoolError;

verus! {

/// The registered content hashes of the three circuit keys.  An all-zero
/// hash is the sentinel for "no key set".
#[derive(Clone, Copy, Debug)]
pub struct VkHashes {
    pub shield: [u8; 32],
    pub transfer: [u8; 32],
    pub unshield: [u8; 32],
}

impl VkHashes {
    /// All three slots hold the all-zero "unset" sentinel.
    pub open spec fn is_unset(self) -> bool {
        all_zero(self.shield@) && all_zero(self.transfer@) && all_zero(self.unshield@)
    }
}

impl Default for VkHashes {
    /// The unset triple: every slot all-zero.
    fn default() -> (r: Self)
        ensures
            r.is_unset(),
    {
        VkHashes { shield: [0u8; 32], transfer: [0u8; 32], unshield: [0u8; 32] }
    }
}

/// Pool-wide configuration, created once at initialization and threaded
/// explicitly into every operation's validation step.
#[derive(Clone, Copy, Debug)]
pub struct PoolConfig {
    /// Administrator identity (a 32-byte host account key).
    pub admin: [u8; 32],
    /// Merkle tree depth, fixed for the pool's lifetime.
    pub merkle_depth: u8,
    /// Capacity of the root window, fixed for the pool's lifetime.
    pub root_window: u16,
    /// Hash of the wire-format specification the pool was created under.
    pub abi_hash: [u8; 32],
    /// Content hashes of the registered verification keys.
    pub vk_hashes: VkHashes,
    /// Emergency pause flag gating every submit operation.
    pub paused: bool,
}

impl PoolConfig {
    /// Serialized size of the configuration record in the host ledger's
    /// account encoding (8-byte tag, fields, and a derivation byte).
    pub const LEN: usize = 8 + 32 + 1 + 2 + 32 + 96 + 1 + 1;
}

/// One circuit's verification-key slot.
#[derive(Clone, Debug)]
pub struct VerificationKeyAccount {
    /// Which circuit this key belongs to.
    pub circuit: u8,
    /// Number of public inputs the circuit exposes.
    pub n_public: u32,
    /// Raw key material in the wire layout, or empty while unset.
    pub vk_data: Vec<u8>,
    /// Content hash of `vk_data`, or all-zero while unset.
    pub vk_hash: [u8; 32],
}

/// Expected byte length of stored key material for `n` public inputs: one
/// group-1 element, three group-2 elements, and `n + 1` group-1 commitment
/// elements.
pub open spec fn vk_len_spec(n: int) -> int {
    448 + (n + 1) * 64
}

impl VerificationKeyAccount {
    /// Serialized size of the slot apart from the key bytes, in the host
    /// ledger's account encoding.
    pub const BASE_LEN: usize = 8 + 1 + 4 + 4 + 32 + 1;

    /// Serialized size of a whole slot for a circuit with `n_public` inputs.
    pub fn space_for(n_public: u32) -> (r: usize)
        requires
            n_public <= 0xFFFF,
        ensures
            r == Self::BASE_LEN + vk_len_spec(n_public as int),
    {
        Self::BASE_LEN + Self::vk_data_len(n_public)
    }

    /// Expected length of the raw key material for `n_public` inputs.
    pub fn vk_data_len(n_public: u32) -> (r: usize)
        requires
            n_public <= 0xFFFF,
        ensures
            r == vk_len_spec(n_public as int),
    {
        448 + (n_public as usize + 1) * 64
    }

    /// The fixed public-input count of `circuit`, or `None` for an unknown
    /// circuit identifier.
    pub open spec fn expected_n_public(circuit: u8) -> Option<u32> {
        if circuit == CIRCUIT_SHIELD {
            Some(SHIELD_PUBLIC_INPUTS as u32)
        } else if circuit == CIRCUIT_TRANSFER {
            Some(TRANSFER_PUBLIC_INPUTS as u32)
        } else if circuit == CIRCUIT_UNSHIELD {
            Some(UNSHIELD_PUBLIC_INPUTS as u32)
        } else {
            None
        }
    }

    /// Checks that the stored input count matches the fixed constant of the
    /// stored circuit kind.
    pub fn validate_n_public(&self) -> (r: Result<(), ZkPoolError>)
        ensures
            r == (match Self::expected_n_public(self.circuit) {
                Option::None => Err::<(), ZkPoolError>(ZkPoolError::InvalidCircuitType),
                Option::Some(n) => if self.n_public == n {
                    Ok::<(), ZkPoolError>(())
                } else {
                    Err::<(), ZkPoolError>(ZkPoolError::InvalidPublicInputCount)
                },
            }),
    {
        let expected: u32 = if self.circuit == CIRCUIT_SHIELD {
            SHIELD_PUBLIC_INPUTS as u32
        } else if self.circuit == CIRCUIT_TRANSFER {
            TRANSFER_PUBLIC_INPUTS as u32
        } else if self.circuit == CIRCUIT_UNSHIELD {
            UNSHIELD_PUBLIC_INPUTS as u32
        } else {
            return Err(ZkPoolError::InvalidCircuitType);
        };
        if self.n_public != expected {
            return Err(ZkPoolError::InvalidPublicInputCount);
        }
        Ok(())
    }
}

/// Circular log of recent Merkle roots: a fixed array of slots, a write
/// cursor, and a count of filled slots.
#[derive(Clone, Debug)]
pub struct RootsAccount {
    /// The slots; exactly `capacity` of them.
    pub roots: Vec<[u8; 32]>,
    /// Index the next root is written at.
    pub cursor: u16,
    /// How many slots have been filled; saturates at `capacity`.
    pub size: u16,
    /// Fixed capacity of the window.
    pub capacity: u16,
}

impl RootsAccount {
    /// Serialized size of the window record apart from the slots, in the
    /// host ledger's account encoding.
    pub const BASE_LEN: usize = 8 + 4 + 2 + 2 + 2 + 1;

    /// Serialized size of a window of the given capacity.
    pub fn space_for(capacity: u16) -> (r: usize)
        ensures
            r == Self::BASE_LEN + capacity as int * 32,
    {
        Self::BASE_LEN + (capacity as usize * 32)
    }

    /// Structural validity: the slot array matches the capacity, the cursor
    /// stays inside it, the fill count never exceeds it, and while the
    /// window is still filling the cursor equals the fill count, so the
    /// filled slots are exactly the prefix `0..size`.
    pub open spec fn wf(self) -> bool {
        &&& self.roots@.len() == self.capacity
        &&& 1 <= self.capacity
        &&& self.cursor < self.capacity
        &&& self.size <= self.capacity
        &&& (self.size < self.capacity ==> self.cursor == self.size)
    }

    /// `root` is among the logically most recent `size` entries.
    pub open spec fn root_in_window(self, root: Seq<u8>) -> bool {
        exists|i: int| 0 <= i < self.size && self.roots@[i]@ == root
    }

    /// True iff `root` is among the most recent `size` roots.
    pub fn contains_root(&self, root: &[u8; 32]) -> (r: bool)
        requires
            self.wf(),
        ensures
            r == self.root_in_window(root@),
    {
        let mut i: usize = 0;
        let bound = self.size as usize;
        while i < bound
            invariant
                self.wf(),
                bound == self.size,
                i <= bound,
                forall|k: int| 0 <= k < i ==> self.roots@[k]@ != root@,
            decreases bound - i,
        {
            if word_eq(&self.roots[i], root) {
                return true;
            }
            i += 1;
        }
        false
    }

    /// Appends `root` at the cursor, overwriting the oldest entry when the
    /// window is full.  Always succeeds: the cursor advances modulo the
    /// capacity and the fill count saturates at it.
    pub fn add_root(&mut self, root: [u8; 32])
        requires
            old(self).wf(),
        ensures
            final(self).wf(),
            final(self).capacity == old(self).capacity,
            final(self).roots@ == old(self).roots@.update(old(self).cursor as int, root),
            final(self).cursor == (old(self).cursor + 1) % (old(self).capacity as int),
            final(self).size == (if old(self).size < old(self).capacity {
                old(self).size + 1
            } else {
                old(self).size as int
            }),
    {
        let idx = self.cursor as usize;
        if idx < self.roots.len() {
            self.roots[idx] = root;
        }
        proof {
            let c = self.capacity as int;
            let cur = self.cursor as int;
            if cur + 1 < c {
                vstd::arithmetic::div_mod::lemma_small_mod((cur + 1) as nat, c as nat);
            } else {
                vstd::arithmetic::div_mod::lemma_mod_multiples_basic(1, c);
            }
        }
        self.cursor = (self.cursor + 1) % self.capacity;
        if self.size < self.capacity {
            self.size += 1;
        }
    }
}

/// Append-only record of consumed nullifiers for one shard.  Entries are
/// permanent: each nullifier is consumable exactly once for the shard's
/// lifetime.
#[derive(Clone, Debug)]
pub struct NullifiersAccount {
    /// Which shard this record serves.
    pub shard: u16,
    /// The consumed nullifiers, in insertion order, without duplicates.
    pub nullifiers: Vec<[u8; 32]>,
}

/// What an insert into a nullifier record leaves behind: the appended
/// sequence on success, or the specific rejection.
pub open spec fn mark_spent_spec(ns: Seq<Seq<u8>>, n: Seq<u8>) -> Result<
    Seq<Seq<u8>>,
    ZkPoolError,
> {
    if spent_in(ns, n) {
        Err(ZkPoolError::NullifierSpent)
    } else if ns.len() >= MAX_NULLIFIERS_PER_SHARD {
        Err(ZkPoolError::NullifierCapacityExceeded)
    } else {
        Ok(ns.push(n))
    }
}

/// `n` occurs in the sequence of consumed nullifiers.
pub open spec fn spent_in(ns: Seq<Seq<u8>>, n: Seq<u8>) -> bool {
    exists|i: int| 0 <= i < ns.len() && ns[i] == n
}

impl NullifiersAccount {
    /// Serialized size of the record apart from the entries, in the host
    /// ledger's account encoding.
    pub const BASE_LEN: usize = 8 + 2 + 4 + 1;

    /// Serialized size of a shard record holding `capacity` entries.
    pub fn space_for(capacity: usize) -> (r: usize)
        requires
            capacity <= 0x100_0000,
        ensures
            r == Self::BASE_LEN + capacity * 32,
    {
        Self::BASE_LEN + (capacity * 32)
    }

    /// The consumed nullifiers as a sequence of byte strings.
    pub open spec fn entries(self) -> Seq<Seq<u8>> {
        self.nullifiers@.map_values(|w: [u8; 32]| w@)
    }

    /// No nullifier occurs twice.
    pub open spec fn wf(self) -> bool {
        forall|i: int, j: int|
            0 <= i < j < self.nullifiers@.len() ==> self.nullifiers@[i]@ != self.nullifiers@[j]@
    }

    /// True iff `nullifier` has already been consumed.
    pub fn is_spent(&self, nullifier: &[u8; 32]) -> (r: bool)
        ensures
            r == spent_in(self.entries(), nullifier@),
    {
        let mut i: usize = 0;
        let len = self.nullifiers.len();
        while i < len
            invariant
                len == self.nullifiers@.len(),
                i <= len,
                forall|k: int| 0 <= k < i ==> self.nullifiers@[k]@ != nullifier@,
            decreases len - i,
        {
            if word_eq(&self.nullifiers[i], nullifier) {
                assert(self.entries()[i as int] == nullifier@);
                return true;
            }
            i += 1;
        }
        assert forall|k: int| 0 <= k < self.entries().len() implies self.entries()[k]
            != nullifier@ by {
            assert(self.nullifiers@[k]@ != nullifier@);
        }
        false
    }

    /// Consumes `nullifier`: fails if it was already consumed or the shard
    /// is at capacity, else appends it permanently.
    pub fn mark_spent(&mut self, nullifier: [u8; 32]) -> (r: Result<(), ZkPoolError>)
        requires
            old(self).wf(),
        ensures
            final(self).wf(),
            final(self).shard == old(self).shard,
            match mark_spent_spec(old(self).entries(), nullifier@) {
                Ok(ns) => r is Ok && final(self).entries() == ns,
                Err(e) => r == Err::<(), ZkPoolError>(e) && *final(self) == *old(self),
            },
    {
        if self.is_spent(&nullifier) {
            return Err(ZkPoolError::NullifierSpent);
        }
        if self.nullifiers.len() >= MAX_NULLIFIERS_PER_SHARD {
            return Err(ZkPoolError::NullifierCapacityExceeded);
        }
        self.nullifiers.push(nullifier);
        assert(self.entries() =~= old(self).entries().push(nullifier@));
        assert forall|i: int, j: int|
            0 <= i < j < self.nullifiers@.len() implies self.nullifiers@[i]@
            != self.nullifiers@[j]@ by {
            if j == self.nullifiers@.len() - 1 {
                assert(old(self).entries()[i] == self.nullifiers@[i]@);
            }
        }
        Ok(())
    }
}

/// Which shard a nullifier is routed to: a pure function of its leading
/// bytes.  One shard is active in this design, so every nullifier routes to
/// shard zero.
pub fn get_nullifier_shard(_nullifier: &[u8; 32]) -> (r: u16)
    ensures
        r == 0,
{
    0
}

} // verus!
