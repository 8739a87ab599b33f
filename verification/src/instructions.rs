//! The pool's operations.
//!
//! Each operation is one atomic admission-and-effect step: every check runs
//! before any mutation, a failure surfaces a specific rejection and leaves
//! all state untouched, and success returns the events the host publishes.
//! The host confirms the caller's identity for the administrative
//! operations (initialize, key registration, root appends, pausing), reads
//! its clock for the `timestamp` argument, and — for unshield — moves the
//! returned net amount through its value-transfer capability.

use vstd::prelude::*;

use crate::codec::{
    address_words_ok, all_zero, amount_value, amount_word_ok, decode_address, decode_amount,
    spec_join_address, word_eq, word_is_zero,
};
use crate::constants::{
    CIRCUIT_SHIELD, CIRCUIT_TRANSFER, CIRCUIT_UNSHIELD, MAX_MERKLE_DEPTH,
    MAX_NULLIFIERS_PER_SHARD, MAX_ROOT_WINDOW, SHIELD_PUBLIC_INPUTS, TRANSFER_PUBLIC_INPUTS,
    UNSHIELD_PUBLIC_INPUTS,
};
use crate::digest::{sha256_digest, sha256_of};
use crate::errors::ZkPoolError;
use crate::events::{
    Initialized, NewCommitment, NullifierSpent, PoolPausedChanged, RootAdded, Unshielded,
    VerificationKeySet,
};
use crate::pipeline::verify_proof;
use crate::pipeline::verify_proof_spec;
use crate::state::{
    get_nullifier_shard, spent_in, vk_len_spec, NullifiersAccount, PoolConfig, RootsAccount,
    VerificationKeyAccount, VkHashes,
};

verus! {

/// The account set a fresh pool consists of: the configuration record, the
/// root window, the active nullifier shard, and one empty key slot per
/// circuit.
pub struct Initialize {
    pub config: PoolConfig,
    pub roots: RootsAccount,
    pub nullifiers: NullifiersAccount,
    pub vk_shield: VerificationKeyAccount,
    pub vk_transfer: VerificationKeyAccount,
    pub vk_unshield: VerificationKeyAccount,
}

/// An empty verification-key slot for one circuit.
pub open spec fn fresh_vk_slot(vk: VerificationKeyAccount, circuit: u8, n_public: u32) -> bool {
    &&& vk.circuit == circuit
    &&& vk.n_public == n_public
    &&& vk.vk_data@.len() == 0
    &&& all_zero(vk.vk_hash@)
}

/// Creates the pool: validates the Merkle depth and root-window capacity,
/// then returns the fresh account set — unpaused, with empty key slots, an
/// empty root window and an empty nullifier shard — and the creation event.
pub fn initialize(
    admin: [u8; 32],
    merkle_depth: u8,
    root_window: u16,
    abi_hash: [u8; 32],
    timestamp: i64,
) -> (r: Result<(Initialize, Initialized), ZkPoolError>)
    ensures
        r is Ok <==> (1 <= merkle_depth <= MAX_MERKLE_DEPTH && 1 <= root_window
            <= MAX_ROOT_WINDOW),
        (merkle_depth == 0 || merkle_depth > MAX_MERKLE_DEPTH) <==> r == Err::<
            (Initialize, Initialized),
            ZkPoolError,
        >(ZkPoolError::InvalidMerkleDepth),
        (1 <= merkle_depth <= MAX_MERKLE_DEPTH && (root_window == 0 || root_window
            > MAX_ROOT_WINDOW)) <==> r == Err::<(Initialize, Initialized), ZkPoolError>(
            ZkPoolError::InvalidRootWindow,
        ),
        r is Ok ==> ({
            let pool = r->Ok_0.0;
            let ev = r->Ok_0.1;
            &&& pool.config.admin == admin
            &&& pool.config.merkle_depth == merkle_depth
            &&& pool.config.root_window == root_window
            &&& pool.config.abi_hash == abi_hash
            &&& pool.config.vk_hashes.is_unset()
            &&& !pool.config.paused
            &&& pool.roots.wf()
            &&& pool.roots.capacity == root_window
            &&& pool.roots.cursor == 0
            &&& pool.roots.size == 0
            &&& forall|i: int|
                0 <= i < pool.roots.roots@.len() ==> all_zero(#[trigger] pool.roots.roots@[i]@)
            &&& pool.nullifiers.shard == 0
            &&& pool.nullifiers.nullifiers@.len() == 0
            &&& pool.nullifiers.wf()
            &&& fresh_vk_slot(pool.vk_shield, CIRCUIT_SHIELD, SHIELD_PUBLIC_INPUTS as u32)
            &&& fresh_vk_slot(pool.vk_transfer, CIRCUIT_TRANSFER, TRANSFER_PUBLIC_INPUTS as u32)
            &&& fresh_vk_slot(pool.vk_unshield, CIRCUIT_UNSHIELD, UNSHIELD_PUBLIC_INPUTS as u32)
            &&& ev == (Initialized { admin, merkle_depth, root_window, abi_hash, timestamp })
        }),
{
    if merkle_depth == 0 || merkle_depth > MAX_MERKLE_DEPTH {
        return Err(ZkPoolError::InvalidMerkleDepth);
    }
    if root_window == 0 || root_window > MAX_ROOT_WINDOW {
        return Err(ZkPoolError::InvalidRootWindow);
    }
    let config = PoolConfig {
        admin,
        merkle_depth,
        root_window,
        abi_hash,
        vk_hashes: VkHashes::default(),
        paused: false,
    };
    let slots: Vec<[u8; 32]> = vec![[0u8; 32]; root_window as usize];
    let roots = RootsAccount { roots: slots, cursor: 0, size: 0, capacity: root_window };
    let nullifiers = NullifiersAccount { shard: 0, nullifiers: Vec::new() };
    let vk_shield = VerificationKeyAccount {
        circuit: CIRCUIT_SHIELD,
        n_public: SHIELD_PUBLIC_INPUTS as u32,
        vk_data: Vec::new(),
        vk_hash: [0u8; 32],
    };
    let vk_transfer = VerificationKeyAccount {
        circuit: CIRCUIT_TRANSFER,
        n_public: TRANSFER_PUBLIC_INPUTS as u32,
        vk_data: Vec::new(),
        vk_hash: [0u8; 32],
    };
    let vk_unshield = VerificationKeyAccount {
        circuit: CIRCUIT_UNSHIELD,
        n_public: UNSHIELD_PUBLIC_INPUTS as u32,
        vk_data: Vec::new(),
        vk_hash: [0u8; 32],
    };
    let event = Initialized { admin, merkle_depth, root_window, abi_hash, timestamp };
    Ok((
        Initialize { config, roots, nullifiers, vk_shield, vk_transfer, vk_unshield },
        event,
    ))
}

/// The fixed public-input count of a valid circuit identifier.
pub open spec fn n_public_for(circuit: u8) -> int {
    if circuit == CIRCUIT_SHIELD {
        SHIELD_PUBLIC_INPUTS as int
    } else if circuit == CIRCUIT_TRANSFER {
        TRANSFER_PUBLIC_INPUTS as int
    } else {
        UNSHIELD_PUBLIC_INPUTS as int
    }
}

/// What key registration decides for its arguments: an unknown circuit,
/// then a wrong key length, then a hash mismatch, in that order.
pub open spec fn set_verification_key_check(circuit: u8, vk_data: Seq<u8>, vk_hash: Seq<u8>) -> Result<(), ZkPoolError> {
    if circuit > CIRCUIT_UNSHIELD {
        Err(ZkPoolError::InvalidCircuitType)
    } else if vk_data.len() != vk_len_spec(n_public_for(circuit)) {
        Err(ZkPoolError::InvalidVkData)
    } else if sha256_of(vk_data) != vk_hash {
        Err(ZkPoolError::VkHashMismatch)
    } else {
        Ok(())
    }
}

/// Registers or replaces the verification key of one circuit.  The key
/// bytes must have the exact length for the circuit's fixed input count,
/// and the claimed hash must equal the freshly computed digest of the
/// bytes; on success the slot is replaced whole and the new digest is
/// published into the configuration's hash triple.  The host admits only
/// the administrator here.
pub fn set_verification_key(
    config: &mut PoolConfig,
    vk_account: &mut VerificationKeyAccount,
    circuit: u8,
    vk_data: Vec<u8>,
    vk_hash: [u8; 32],
    timestamp: i64,
) -> (r: Result<VerificationKeySet, ZkPoolError>)
    ensures
        r == (match set_verification_key_check(circuit, vk_data@, vk_hash@) {
            Err(e) => Err::<VerificationKeySet, ZkPoolError>(e),
            Ok(_) => Ok::<VerificationKeySet, ZkPoolError>(
                VerificationKeySet { circuit, vk_hash, timestamp },
            ),
        }),
        r is Err ==> *final(config) == *old(config) && *final(vk_account) == *old(vk_account),
        r is Ok ==> ({
            &&& final(vk_account).circuit == circuit
            &&& final(vk_account).n_public == n_public_for(circuit)
            &&& final(vk_account).vk_data == vk_data
            &&& final(vk_account).vk_hash == vk_hash
            &&& final(config).admin == old(config).admin
            &&& final(config).merkle_depth == old(config).merkle_depth
            &&& final(config).root_window == old(config).root_window
            &&& final(config).abi_hash == old(config).abi_hash
            &&& final(config).paused == old(config).paused
            &&& final(config).vk_hashes.shield == (if circuit == CIRCUIT_SHIELD {
                vk_hash
            } else {
                old(config).vk_hashes.shield
            })
            &&& final(config).vk_hashes.transfer == (if circuit == CIRCUIT_TRANSFER {
                vk_hash
            } else {
                old(config).vk_hashes.transfer
            })
            &&& final(config).vk_hashes.unshield == (if circuit == CIRCUIT_UNSHIELD {
                vk_hash
            } else {
                old(config).vk_hashes.unshield
            })
        }),
{
    if circuit > CIRCUIT_UNSHIELD {
        return Err(ZkPoolError::InvalidCircuitType);
    }
    let n_public: u32 = if circuit == CIRCUIT_SHIELD {
        SHIELD_PUBLIC_INPUTS as u32
    } else if circuit == CIRCUIT_TRANSFER {
        TRANSFER_PUBLIC_INPUTS as u32
    } else {
        UNSHIELD_PUBLIC_INPUTS as u32
    };
    let expected_len = VerificationKeyAccount::vk_data_len(n_public);
    if vk_data.len() != expected_len {
        return Err(ZkPoolError::InvalidVkData);
    }
    let computed_hash = sha256_digest(&vk_data);
    if !word_eq(&computed_hash, &vk_hash) {
        return Err(ZkPoolError::VkHashMismatch);
    }
    vk_account.circuit = circuit;
    vk_account.n_public = n_public;
    vk_account.vk_data = vk_data;
    vk_account.vk_hash = vk_hash;
    match vk_account.validate_n_public() {
        Ok(_) => {},
        Err(e) => {
            return Err(e);
        },
    }
    if circuit == CIRCUIT_SHIELD {
        config.vk_hashes.shield = vk_hash;
    } else if circuit == CIRCUIT_TRANSFER {
        config.vk_hashes.transfer = vk_hash;
    } else {
        config.vk_hashes.unshield = vk_hash;
    }
    Ok(VerificationKeySet { circuit, vk_hash, timestamp })
}

/// Appends a root to the window.  Always succeeds: the oldest entry is
/// overwritten once the window is full.  The event carries the slot index
/// the root was written at.  The host admits only authorized callers here.
pub fn add_root(roots: &mut RootsAccount, root: [u8; 32], timestamp: i64) -> (r: Result<
    RootAdded,
    ZkPoolError,
>)
    requires
        old(roots).wf(),
    ensures
        final(roots).wf(),
        r is Ok,
        r->Ok_0 == (RootAdded { root, index: old(roots).cursor, timestamp }),
        final(roots).capacity == old(roots).capacity,
        final(roots).roots@ == old(roots).roots@.update(old(roots).cursor as int, root),
        final(roots).cursor == (old(roots).cursor + 1) % (old(roots).capacity as int),
        final(roots).size == (if old(roots).size < old(roots).capacity {
            old(roots).size + 1
        } else {
            old(roots).size as int
        }),
{
    let index = roots.cursor;
    roots.add_root(root);
    Ok(RootAdded { root, index, timestamp })
}

/// Switches the pause flag.  While paused, every submit operation is
/// rejected before any other validation.  The host admits only the
/// administrator here.
pub fn set_paused(config: &mut PoolConfig, paused: bool, timestamp: i64) -> (r: Result<
    PoolPausedChanged,
    ZkPoolError,
>)
    ensures
        r is Ok,
        r->Ok_0 == (PoolPausedChanged { paused, admin: old(config).admin, timestamp }),
        final(config).paused == paused,
        final(config).admin == old(config).admin,
        final(config).merkle_depth == old(config).merkle_depth,
        final(config).root_window == old(config).root_window,
        final(config).abi_hash == old(config).abi_hash,
        final(config).vk_hashes == old(config).vk_hashes,
{
    config.paused = paused;
    Ok(PoolPausedChanged { paused, admin: config.admin, timestamp })
}

/// What a shield submission returns: the pause gate, the input count, the
/// key-registry checks, then the proof pipeline, in that order; on success
/// the commitment event for `inputs[0]`.
pub open spec fn submit_shield_spec(
    config: PoolConfig,
    vk: VerificationKeyAccount,
    proof: Seq<u8>,
    inputs: Seq<[u8; 32]>,
    timestamp: i64,
) -> Result<NewCommitment, ZkPoolError> {
    if config.paused {
        Err(ZkPoolError::PoolPaused)
    } else if inputs.len() != SHIELD_PUBLIC_INPUTS {
        Err(ZkPoolError::InvalidPublicInputCount)
    } else if vk.vk_hash@ != config.vk_hashes.shield@ {
        Err(ZkPoolError::VkHashMismatch)
    } else if all_zero(config.vk_hashes.shield@) {
        Err(ZkPoolError::VkNotSet)
    } else {
        match verify_proof_spec(vk.n_public as int, vk.vk_data@, proof, inputs) {
            Err(e) => Err(e),
            Ok(_) => Ok(
                NewCommitment { commitment: inputs[0], circuit: CIRCUIT_SHIELD, timestamp },
            ),
        }
    }
}

/// Admits a deposit: checks the pause gate, the input layout
/// `[commitment]`, the registered shield key, and the proof pipeline, and
/// on success emits the commitment event.  Deposits consume nothing, so no
/// root or nullifier takes part.
pub fn submit_shield(
    config: &PoolConfig,
    vk_account: &VerificationKeyAccount,
    proof: &[u8],
    public_inputs: &[[u8; 32]],
    timestamp: i64,
) -> (r: Result<NewCommitment, ZkPoolError>)
    requires
        vk_account.n_public <= 0xFFFF,
    ensures
        r == submit_shield_spec(*config, *vk_account, proof@, public_inputs@, timestamp),
{
    if config.paused {
        return Err(ZkPoolError::PoolPaused);
    }
    if public_inputs.len() != SHIELD_PUBLIC_INPUTS {
        return Err(ZkPoolError::InvalidPublicInputCount);
    }
    if !word_eq(&vk_account.vk_hash, &config.vk_hashes.shield) {
        return Err(ZkPoolError::VkHashMismatch);
    }
    if word_is_zero(&config.vk_hashes.shield) {
        return Err(ZkPoolError::VkNotSet);
    }
    match verify_proof(vk_account, proof, public_inputs, &config.abi_hash) {
        Ok(_) => {},
        Err(e) => {
            return Err(e);
        },
    }
    let commitment = public_inputs[0];
    Ok(NewCommitment { commitment, circuit: CIRCUIT_SHIELD, timestamp })
}

/// What a transfer submission returns: the pause gate, the input count,
/// the key-registry checks, root freshness, the double-spend guard, the
/// proof pipeline, then shard capacity, in that order; on success the two
/// events for `[root, nullifier, new_commitment, fee]`.
pub open spec fn submit_transfer_spec(
    config: PoolConfig,
    vk: VerificationKeyAccount,
    roots: RootsAccount,
    nullifiers: NullifiersAccount,
    proof: Seq<u8>,
    inputs: Seq<[u8; 32]>,
    timestamp: i64,
) -> Result<(NullifierSpent, NewCommitment), ZkPoolError> {
    if config.paused {
        Err(ZkPoolError::PoolPaused)
    } else if inputs.len() != TRANSFER_PUBLIC_INPUTS {
        Err(ZkPoolError::InvalidPublicInputCount)
    } else if vk.vk_hash@ != config.vk_hashes.transfer@ {
        Err(ZkPoolError::VkHashMismatch)
    } else if all_zero(config.vk_hashes.transfer@) {
        Err(ZkPoolError::VkNotSet)
    } else if !roots.root_in_window(inputs[0]@) {
        Err(ZkPoolError::RootNotFound)
    } else if spent_in(nullifiers.entries(), inputs[1]@) {
        Err(ZkPoolError::NullifierSpent)
    } else {
        match verify_proof_spec(vk.n_public as int, vk.vk_data@, proof, inputs) {
            Err(e) => Err(e),
            Ok(_) => if nullifiers.entries().len() >= MAX_NULLIFIERS_PER_SHARD {
                Err(ZkPoolError::NullifierCapacityExceeded)
            } else {
                Ok(
                    (
                        NullifierSpent {
                            nullifier: inputs[1],
                            circuit: CIRCUIT_TRANSFER,
                            timestamp,
                        },
                        NewCommitment {
                            commitment: inputs[2],
                            circuit: CIRCUIT_TRANSFER,
                            timestamp,
                        },
                    ),
                )
            },
        }
    }
}

/// Admits a private transfer with inputs
/// `[root, nullifier, new_commitment, fee]`: the referenced root must be
/// recent, the nullifier unspent, and the proof accepted.  On success — and
/// only then — the nullifier is recorded as consumed, and the two events
/// are returned in emission order.
pub fn submit_transfer(
    config: &PoolConfig,
    vk_account: &VerificationKeyAccount,
    roots: &RootsAccount,
    nullifiers: &mut NullifiersAccount,
    proof: &[u8],
    public_inputs: &[[u8; 32]],
    timestamp: i64,
) -> (r: Result<(NullifierSpent, NewCommitment), ZkPoolError>)
    requires
        vk_account.n_public <= 0xFFFF,
        roots.wf(),
        old(nullifiers).wf(),
    ensures
        r == submit_transfer_spec(
            *config,
            *vk_account,
            *roots,
            *old(nullifiers),
            proof@,
            public_inputs@,
            timestamp,
        ),
        r is Err ==> *final(nullifiers) == *old(nullifiers),
        r is Ok ==> ({
            &&& final(nullifiers).wf()
            &&& final(nullifiers).entries() == old(nullifiers).entries().push(
                public_inputs@[1]@,
            )
            &&& final(nullifiers).shard as int == (if old(nullifiers).nullifiers@.len() == 0 {
                0
            } else {
                old(nullifiers).shard as int
            })
        }),
{
    if config.paused {
        return Err(ZkPoolError::PoolPaused);
    }
    if public_inputs.len() != TRANSFER_PUBLIC_INPUTS {
        return Err(ZkPoolError::InvalidPublicInputCount);
    }
    if !word_eq(&vk_account.vk_hash, &config.vk_hashes.transfer) {
        return Err(ZkPoolError::VkHashMismatch);
    }
    if word_is_zero(&config.vk_hashes.transfer) {
        return Err(ZkPoolError::VkNotSet);
    }
    let root = public_inputs[0];
    let nullifier = public_inputs[1];
    let new_commitment = public_inputs[2];
    if !roots.contains_root(&root) {
        return Err(ZkPoolError::RootNotFound);
    }
    if nullifiers.is_spent(&nullifier) {
        return Err(ZkPoolError::NullifierSpent);
    }
    match verify_proof(vk_account, proof, public_inputs, &config.abi_hash) {
        Ok(_) => {},
        Err(e) => {
            return Err(e);
        },
    }
    if nullifiers.nullifiers.len() >= MAX_NULLIFIERS_PER_SHARD {
        return Err(ZkPoolError::NullifierCapacityExceeded);
    }
    if nullifiers.nullifiers.is_empty() {
        let shard = get_nullifier_shard(&nullifier);
        nullifiers.shard = shard;
    }
    match nullifiers.mark_spent(nullifier) {
        Ok(_) => {},
        Err(e) => {
            return Err(e);
        },
    }
    Ok(
        (
            NullifierSpent { nullifier, circuit: CIRCUIT_TRANSFER, timestamp },
            NewCommitment { commitment: new_commitment, circuit: CIRCUIT_TRANSFER, timestamp },
        ),
    )
}

/// What a successful unshield hands back to the host: the net amount the
/// value-transfer capability must move (zero means no movement), and the
/// two events in emission order.
#[derive(Clone, Copy, Debug, PartialEq, Eq)]
pub struct UnshieldOutcome {
    pub transfer_amount: u64,
    pub nullifier_spent: NullifierSpent,
    pub unshielded: Unshielded,
}

/// What an unshield submission returns for inputs
/// `[root, nullifier, recipient_lo, recipient_hi, amount, fee]`: the pause
/// gate, the input count, the key-registry checks, the recipient encoding
/// and its match against the destination, root freshness, the double-spend
/// guard, the proof pipeline, the amount and fee decodings, the fee bound,
/// then shard capacity, in that order.
pub open spec fn submit_unshield_spec(
    config: PoolConfig,
    vk: VerificationKeyAccount,
    roots: RootsAccount,
    nullifiers: NullifiersAccount,
    recipient: [u8; 32],
    proof: Seq<u8>,
    inputs: Seq<[u8; 32]>,
    timestamp: i64,
) -> Result<UnshieldOutcome, ZkPoolError> {
    if config.paused {
        Err(ZkPoolError::PoolPaused)
    } else if inputs.len() != UNSHIELD_PUBLIC_INPUTS {
        Err(ZkPoolError::InvalidPublicInputCount)
    } else if vk.vk_hash@ != config.vk_hashes.unshield@ {
        Err(ZkPoolError::VkHashMismatch)
    } else if all_zero(config.vk_hashes.unshield@) {
        Err(ZkPoolError::VkNotSet)
    } else if !address_words_ok(inputs[2]@, inputs[3]@) {
        Err(ZkPoolError::InvalidEncoding)
    } else if spec_join_address(inputs[2]@, inputs[3]@) != recipient@ {
        Err(ZkPoolError::InvalidRecipient)
    } else if !roots.root_in_window(inputs[0]@) {
        Err(ZkPoolError::RootNotFound)
    } else if spent_in(nullifiers.entries(), inputs[1]@) {
        Err(ZkPoolError::NullifierSpent)
    } else {
        match verify_proof_spec(vk.n_public as int, vk.vk_data@, proof, inputs) {
            Err(e) => Err(e),
            Ok(_) => if !amount_word_ok(inputs[4]@) {
                Err(ZkPoolError::AmountTooLarge)
            } else if !amount_word_ok(inputs[5]@) {
                Err(ZkPoolError::AmountTooLarge)
            } else if amount_value(inputs[5]@) > amount_value(inputs[4]@) {
                Err(ZkPoolError::FeeExceedsAmount)
            } else if nullifiers.entries().len() >= MAX_NULLIFIERS_PER_SHARD {
                Err(ZkPoolError::NullifierCapacityExceeded)
            } else {
                Ok(
                    UnshieldOutcome {
                        transfer_amount: (amount_value(inputs[4]@) - amount_value(
                            inputs[5]@,
                        )) as u64,
                        nullifier_spent: NullifierSpent {
                            nullifier: inputs[1],
                            circuit: CIRCUIT_UNSHIELD,
                            timestamp,
                        },
                        unshielded: Unshielded {
                            recipient,
                            amount: amount_value(inputs[4]@),
                            fee: amount_value(inputs[5]@),
                            nullifier: inputs[1],
                            timestamp,
                        },
                    },
                )
            },
        }
    }
}

/// Admits a withdrawal with inputs
/// `[root, nullifier, recipient_lo, recipient_hi, amount, fee]`.  The
/// recipient decoded from its split limbs must equal the caller-supplied
/// destination, the root must be recent, the nullifier unspent, the proof
/// accepted, the amount and fee exactly encoded, and the fee no larger than
/// the amount.  Only then is the nullifier consumed; the host moves the
/// returned net amount, skipping a zero net.
pub fn submit_unshield(
    config: &PoolConfig,
    vk_account: &VerificationKeyAccount,
    roots: &RootsAccount,
    nullifiers: &mut NullifiersAccount,
    recipient: &[u8; 32],
    proof: &[u8],
    public_inputs: &[[u8; 32]],
    timestamp: i64,
) -> (r: Result<UnshieldOutcome, ZkPoolError>)
    requires
        vk_account.n_public <= 0xFFFF,
        roots.wf(),
        old(nullifiers).wf(),
    ensures
        r == submit_unshield_spec(
            *config,
            *vk_account,
            *roots,
            *old(nullifiers),
            *recipient,
            proof@,
            public_inputs@,
            timestamp,
        ),
        r is Err ==> *final(nullifiers) == *old(nullifiers),
        r is Ok ==> ({
            &&& final(nullifiers).wf()
            &&& final(nullifiers).entries() == old(nullifiers).entries().push(
                public_inputs@[1]@,
            )
            &&& final(nullifiers).shard as int == (if old(nullifiers).nullifiers@.len() == 0 {
                0
            } else {
                old(nullifiers).shard as int
            })
        }),
{
    if config.paused {
        return Err(ZkPoolError::PoolPaused);
    }
    if public_inputs.len() != UNSHIELD_PUBLIC_INPUTS {
        return Err(ZkPoolError::InvalidPublicInputCount);
    }
    if !word_eq(&vk_account.vk_hash, &config.vk_hashes.unshield) {
        return Err(ZkPoolError::VkHashMismatch);
    }
    if word_is_zero(&config.vk_hashes.unshield) {
        return Err(ZkPoolError::VkNotSet);
    }
    let root = public_inputs[0];
    let nullifier = public_inputs[1];
    let recipient_lo = public_inputs[2];
    let recipient_hi = public_inputs[3];
    let public_amount = public_inputs[4];
    let fee_word = public_inputs[5];
    let recipient_decoded = match decode_address(&recipient_lo, &recipient_hi) {
        Ok(addr) => addr,
        Err(e) => {
            return Err(e);
        },
    };
    if !word_eq(&recipient_decoded, recipient) {
        return Err(ZkPoolError::InvalidRecipient);
    }
    if !roots.contains_root(&root) {
        return Err(ZkPoolError::RootNotFound);
    }
    if nullifiers.is_spent(&nullifier) {
        return Err(ZkPoolError::NullifierSpent);
    }
    match verify_proof(vk_account, proof, public_inputs, &config.abi_hash) {
        Ok(_) => {},
        Err(e) => {
            return Err(e);
        },
    }
    let amount = match decode_amount(&public_amount) {
        Ok(v) => v,
        Err(e) => {
            return Err(e);
        },
    };
    let fee_amount = match decode_amount(&fee_word) {
        Ok(v) => v,
        Err(e) => {
            return Err(e);
        },
    };
    if fee_amount > amount {
        return Err(ZkPoolError::FeeExceedsAmount);
    }
    if nullifiers.nullifiers.len() >= MAX_NULLIFIERS_PER_SHARD {
        return Err(ZkPoolError::NullifierCapacityExceeded);
    }
    if nullifiers.nullifiers.is_empty() {
        let shard = get_nullifier_shard(&nullifier);
        nullifiers.shard = shard;
    }
    match nullifiers.mark_spent(nullifier) {
        Ok(_) => {},
        Err(e) => {
            return Err(e);
        },
    }
    let transfer_amount = amount - fee_amount;
    Ok(
        UnshieldOutcome {
            transfer_amount,
            nullifier_spent: NullifierSpent { nullifier, circuit: CIRCUIT_UNSHIELD, timestamp },
            unshielded: Unshielded {
                recipient: *recipient,
                amount,
                fee: fee_amount,
                nullifier,
                timestamp,
            },
        },
    )
}

} // verus!
