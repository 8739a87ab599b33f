use sha2::{Digest, Sha256};
use zk_pool::constants::{CIRCUIT_SHIELD, CIRCUIT_TRANSFER, CIRCUIT_UNSHIELD};
use zk_pool::errors::ZkPoolError;
use zk_pool::instructions::{
    add_root, initialize, set_paused, set_verification_key, submit_shield, submit_transfer,
    submit_unshield, Initialize,
};
use zk_pool::pipeline::verify_proof;
use zk_pool::state::VerificationKeyAccount;

const TS: i64 = 1_700_000_000;

fn word(tag: u8) -> [u8; 32] {
    let mut w = [0u8; 32];
    w[0] = tag;
    w[1] = tag.wrapping_mul(7);
    w
}

fn fresh_pool() -> Initialize {
    let (pool, event) = initialize([9u8; 32], 20, 8, [5u8; 32], TS).unwrap();
    assert_eq!(event.admin, [9u8; 32]);
    assert_eq!(event.merkle_depth, 20);
    assert_eq!(event.root_window, 8);
    assert_eq!(event.timestamp, TS);
    pool
}

fn vk_bytes(n_public: u32) -> Vec<u8> {
    vec![1u8; 448 + (n_public as usize + 1) * 64]
}

fn digest_of(data: &[u8]) -> [u8; 32] {
    Sha256::digest(data).into()
}

fn register_key(pool: &mut Initialize, circuit: u8) {
    let (n, slot) = match circuit {
        0 => (1, &mut pool.vk_shield),
        1 => (4, &mut pool.vk_transfer),
        _ => (6, &mut pool.vk_unshield),
    };
    let data = vk_bytes(n);
    let hash = digest_of(&data);
    let event =
        set_verification_key(&mut pool.config, slot, circuit, data, hash, TS).unwrap();
    assert_eq!(event.circuit, circuit);
    assert_eq!(event.vk_hash, hash);
}

fn proof_bytes() -> Vec<u8> {
    vec![1u8; 256]
}

fn split_address(addr: &[u8; 32]) -> ([u8; 32], [u8; 32]) {
    let mut lo = [0u8; 32];
    let mut hi = [0u8; 32];
    lo[..16].copy_from_slice(&addr[..16]);
    hi[..16].copy_from_slice(&addr[16..]);
    (lo, hi)
}

fn amount_word(v: u64) -> [u8; 32] {
    let mut w = [0u8; 32];
    w[..8].copy_from_slice(&v.to_le_bytes());
    w
}

#[test]
fn verify_proof_checks_each_stage() {
    let data = vk_bytes(1);
    let hash = digest_of(&data);
    let vk = VerificationKeyAccount {
        circuit: 0,
        n_public: 1,
        vk_data: data,
        vk_hash: hash,
    };
    let abi = [5u8; 32];
    let proof = proof_bytes();

    assert_eq!(verify_proof(&vk, &proof, &[word(1)], &abi), Ok(()));
    assert_eq!(
        verify_proof(&vk, &proof, &[word(1), word(2)], &abi),
        Err(ZkPoolError::InvalidPublicInputCount)
    );
    assert_eq!(
        verify_proof(&vk, &proof[..200], &[word(1)], &abi),
        Err(ZkPoolError::InvalidProofData)
    );

    let mut zero_alpha = vk.clone();
    for b in zero_alpha.vk_data[..64].iter_mut() {
        *b = 0;
    }
    assert_eq!(
        verify_proof(&zero_alpha, &proof, &[word(1)], &abi),
        Err(ZkPoolError::InvalidVkData)
    );

    let mut truncated = vk.clone();
    truncated.vk_data.pop();
    assert_eq!(
        verify_proof(&truncated, &proof, &[word(1)], &abi),
        Err(ZkPoolError::InvalidVkData)
    );
}

#[test]
fn initialize_validates_parameters() {
    assert_eq!(
        initialize([0u8; 32], 0, 8, [0u8; 32], TS).err(),
        Some(ZkPoolError::InvalidMerkleDepth)
    );
    assert_eq!(
        initialize([0u8; 32], 33, 8, [0u8; 32], TS).err(),
        Some(ZkPoolError::InvalidMerkleDepth)
    );
    assert_eq!(
        initialize([0u8; 32], 20, 0, [0u8; 32], TS).err(),
        Some(ZkPoolError::InvalidRootWindow)
    );
    assert_eq!(
        initialize([0u8; 32], 20, 257, [0u8; 32], TS).err(),
        Some(ZkPoolError::InvalidRootWindow)
    );
}

#[test]
fn initialize_creates_fresh_accounts() {
    let pool = fresh_pool();
    assert_eq!(pool.config.admin, [9u8; 32]);
    assert!(!pool.config.paused);
    assert_eq!(pool.config.vk_hashes.shield, [0u8; 32]);
    assert_eq!(pool.roots.capacity, 8);
    assert_eq!(pool.roots.roots.len(), 8);
    assert_eq!(pool.roots.cursor, 0);
    assert_eq!(pool.roots.size, 0);
    assert_eq!(pool.nullifiers.shard, 0);
    assert!(pool.nullifiers.nullifiers.is_empty());
    assert_eq!(pool.vk_shield.circuit, CIRCUIT_SHIELD);
    assert_eq!(pool.vk_shield.n_public, 1);
    assert_eq!(pool.vk_transfer.circuit, CIRCUIT_TRANSFER);
    assert_eq!(pool.vk_transfer.n_public, 4);
    assert_eq!(pool.vk_unshield.circuit, CIRCUIT_UNSHIELD);
    assert_eq!(pool.vk_unshield.n_public, 6);
}

#[test]
fn set_verification_key_checks_hash() {
    let mut pool = fresh_pool();
    let data = vk_bytes(1);
    let mut wrong = digest_of(&data);
    wrong[0] ^= 1;
    assert_eq!(
        set_verification_key(&mut pool.config, &mut pool.vk_shield, 0, data, wrong, TS),
        Err(ZkPoolError::VkHashMismatch)
    );
    // The failed registration left both the slot and the registry untouched.
    assert_eq!(pool.vk_shield.vk_data.len(), 0);
    assert_eq!(pool.config.vk_hashes.shield, [0u8; 32]);
}

#[test]
fn set_verification_key_publishes_hash() {
    let mut pool = fresh_pool();
    let data = vk_bytes(1);
    let hash = digest_of(&data);
    let event = set_verification_key(
        &mut pool.config,
        &mut pool.vk_shield,
        0,
        data.clone(),
        hash,
        TS,
    )
    .unwrap();
    assert_eq!(event.circuit, 0);
    assert_eq!(event.vk_hash, hash);
    assert_eq!(pool.config.vk_hashes.shield, hash);
    assert_eq!(pool.config.vk_hashes.transfer, [0u8; 32]);
    assert_eq!(pool.vk_shield.vk_data, data);
    assert_eq!(pool.vk_shield.vk_hash, hash);
}

#[test]
fn set_verification_key_checks_length_and_circuit() {
    let mut pool = fresh_pool();
    let short = vec![1u8; 100];
    let hash = digest_of(&short);
    assert_eq!(
        set_verification_key(&mut pool.config, &mut pool.vk_shield, 0, short, hash, TS),
        Err(ZkPoolError::InvalidVkData)
    );
    let data = vk_bytes(1);
    let hash = digest_of(&data);
    assert_eq!(
        set_verification_key(&mut pool.config, &mut pool.vk_shield, 3, data, hash, TS),
        Err(ZkPoolError::InvalidCircuitType)
    );
}

#[test]
fn add_root_reports_slot_index() {
    let mut pool = fresh_pool();
    let e1 = add_root(&mut pool.roots, word(1), TS).unwrap();
    assert_eq!(e1.index, 0);
    assert_eq!(e1.root, word(1));
    let e2 = add_root(&mut pool.roots, word(2), TS).unwrap();
    assert_eq!(e2.index, 1);
    assert!(pool.roots.contains_root(&word(1)));
    assert!(pool.roots.contains_root(&word(2)));
}

#[test]
fn pause_gate_blocks_all_submissions() {
    let mut pool = fresh_pool();
    register_key(&mut pool, 0);
    register_key(&mut pool, 1);
    register_key(&mut pool, 2);
    add_root(&mut pool.roots, word(1), TS).unwrap();

    let event = set_paused(&mut pool.config, true, TS).unwrap();
    assert!(event.paused);
    assert_eq!(event.admin, [9u8; 32]);
    assert!(pool.config.paused);

    let proof = proof_bytes();
    assert_eq!(
        submit_shield(&pool.config, &pool.vk_shield, &proof, &[word(2)], TS),
        Err(ZkPoolError::PoolPaused)
    );
    let inputs = [word(1), word(2), word(3), word(4)];
    assert_eq!(
        submit_transfer(
            &pool.config,
            &pool.vk_transfer,
            &pool.roots,
            &mut pool.nullifiers,
            &proof,
            &inputs,
            TS
        ),
        Err(ZkPoolError::PoolPaused)
    );
    let recipient = word(7);
    let (lo, hi) = split_address(&recipient);
    let inputs =
        [word(1), word(2), lo, hi, amount_word(1000), amount_word(100)];
    assert_eq!(
        submit_unshield(
            &pool.config,
            &pool.vk_unshield,
            &pool.roots,
            &mut pool.nullifiers,
            &recipient,
            &proof,
            &inputs,
            TS
        ),
        Err(ZkPoolError::PoolPaused)
    );

    // Unpausing restores admission.
    let event = set_paused(&mut pool.config, false, TS).unwrap();
    assert!(!event.paused);
    assert!(
        submit_shield(&pool.config, &pool.vk_shield, &proof, &[word(2)], TS).is_ok()
    );
}

#[test]
fn shield_emits_commitment() {
    let mut pool = fresh_pool();
    register_key(&mut pool, 0);
    let commitment = word(0x11);
    let event = submit_shield(
        &pool.config,
        &pool.vk_shield,
        &proof_bytes(),
        &[commitment],
        TS,
    )
    .unwrap();
    assert_eq!(event.commitment, commitment);
    assert_eq!(event.circuit, CIRCUIT_SHIELD);
    assert_eq!(event.timestamp, TS);
}

#[test]
fn shield_requires_registered_key() {
    let pool = fresh_pool();
    assert_eq!(
        submit_shield(&pool.config, &pool.vk_shield, &proof_bytes(), &[word(1)], TS),
        Err(ZkPoolError::VkNotSet)
    );
}

#[test]
fn shield_rejects_mismatched_key() {
    let mut pool = fresh_pool();
    register_key(&mut pool, 0);
    // A slot whose hash differs from the registry entry for shield.
    assert_eq!(
        submit_shield(&pool.config, &pool.vk_transfer, &proof_bytes(), &[word(1)], TS),
        Err(ZkPoolError::VkHashMismatch)
    );
}

#[test]
fn shield_rejects_bad_input_count() {
    let mut pool = fresh_pool();
    register_key(&mut pool, 0);
    assert_eq!(
        submit_shield(
            &pool.config,
            &pool.vk_shield,
            &proof_bytes(),
            &[word(1), word(2)],
            TS
        ),
        Err(ZkPoolError::InvalidPublicInputCount)
    );
}

#[test]
fn shield_rejects_bad_proof_material() {
    let mut pool = fresh_pool();
    register_key(&mut pool, 0);
    let short = vec![1u8; 255];
    assert_eq!(
        submit_shield(&pool.config, &pool.vk_shield, &short, &[word(1)], TS),
        Err(ZkPoolError::InvalidProofData)
    );
    let mut degenerate = proof_bytes();
    for b in degenerate[..64].iter_mut() {
        *b = 0;
    }
    assert_eq!(
        submit_shield(&pool.config, &pool.vk_shield, &degenerate, &[word(1)], TS),
        Err(ZkPoolError::InvalidProofData)
    );
}

#[test]
fn shield_rejects_malformed_stored_key() {
    let mut pool = fresh_pool();
    let bad_data = vec![1u8; 100];
    let hash = digest_of(&bad_data);
    pool.vk_shield = VerificationKeyAccount {
        circuit: 0,
        n_public: 1,
        vk_data: bad_data,
        vk_hash: hash,
    };
    pool.config.vk_hashes.shield = hash;
    assert_eq!(
        submit_shield(&pool.config, &pool.vk_shield, &proof_bytes(), &[word(1)], TS),
        Err(ZkPoolError::InvalidVkData)
    );
}

#[test]
fn shield_rejects_out_of_range_input() {
    let mut pool = fresh_pool();
    register_key(&mut pool, 0);
    let mut input = word(1);
    input[31] = 0x30;
    assert_eq!(
        submit_shield(&pool.config, &pool.vk_shield, &proof_bytes(), &[input], TS),
        Err(ZkPoolError::FieldOutOfRange)
    );
}

#[test]
fn transfer_spends_nullifier_once() {
    let mut pool = fresh_pool();
    register_key(&mut pool, 1);
    let root = word(1);
    add_root(&mut pool.roots, root, TS).unwrap();
    let nullifier = word(2);
    let new_commitment = word(3);
    let inputs = [root, nullifier, new_commitment, word(4)];
    let proof = proof_bytes();

    let (spent, fresh) = submit_transfer(
        &pool.config,
        &pool.vk_transfer,
        &pool.roots,
        &mut pool.nullifiers,
        &proof,
        &inputs,
        TS,
    )
    .unwrap();
    assert_eq!(spent.nullifier, nullifier);
    assert_eq!(spent.circuit, CIRCUIT_TRANSFER);
    assert_eq!(fresh.commitment, new_commitment);
    assert_eq!(fresh.circuit, CIRCUIT_TRANSFER);
    assert_eq!(pool.nullifiers.nullifiers.len(), 1);
    assert!(pool.nullifiers.is_spent(&nullifier));

    // Resubmitting the identical transfer is rejected as a double spend.
    assert_eq!(
        submit_transfer(
            &pool.config,
            &pool.vk_transfer,
            &pool.roots,
            &mut pool.nullifiers,
            &proof,
            &inputs,
            TS
        ),
        Err(ZkPoolError::NullifierSpent)
    );
    assert_eq!(pool.nullifiers.nullifiers.len(), 1);
}

#[test]
fn transfer_requires_recent_root() {
    let mut pool = fresh_pool();
    register_key(&mut pool, 1);
    add_root(&mut pool.roots, word(1), TS).unwrap();
    let inputs = [word(9), word(2), word(3), word(4)];
    assert_eq!(
        submit_transfer(
            &pool.config,
            &pool.vk_transfer,
            &pool.roots,
            &mut pool.nullifiers,
            &proof_bytes(),
            &inputs,
            TS
        ),
        Err(ZkPoolError::RootNotFound)
    );
    assert!(pool.nullifiers.nullifiers.is_empty());
}

#[test]
fn unshield_moves_net_amount() {
    let mut pool = fresh_pool();
    register_key(&mut pool, 2);
    let root = word(1);
    add_root(&mut pool.roots, root, TS).unwrap();
    let nullifier = word(2);
    let recipient = word(7);
    let (lo, hi) = split_address(&recipient);
    let inputs = [root, nullifier, lo, hi, amount_word(1000), amount_word(100)];

    let outcome = submit_unshield(
        &pool.config,
        &pool.vk_unshield,
        &pool.roots,
        &mut pool.nullifiers,
        &recipient,
        &proof_bytes(),
        &inputs,
        TS,
    )
    .unwrap();
    assert_eq!(outcome.transfer_amount, 900);
    assert_eq!(outcome.nullifier_spent.nullifier, nullifier);
    assert_eq!(outcome.nullifier_spent.circuit, CIRCUIT_UNSHIELD);
    assert_eq!(outcome.unshielded.recipient, recipient);
    assert_eq!(outcome.unshielded.amount, 1000);
    assert_eq!(outcome.unshielded.fee, 100);
    assert_eq!(outcome.unshielded.nullifier, nullifier);
    assert!(pool.nullifiers.is_spent(&nullifier));
}

#[test]
fn unshield_rejects_excess_fee_before_mutation() {
    let mut pool = fresh_pool();
    register_key(&mut pool, 2);
    let root = word(1);
    add_root(&mut pool.roots, root, TS).unwrap();
    let recipient = word(7);
    let (lo, hi) = split_address(&recipient);
    let inputs = [root, word(2), lo, hi, amount_word(100), amount_word(101)];

    assert_eq!(
        submit_unshield(
            &pool.config,
            &pool.vk_unshield,
            &pool.roots,
            &mut pool.nullifiers,
            &recipient,
            &proof_bytes(),
            &inputs,
            TS
        ),
        Err(ZkPoolError::FeeExceedsAmount)
    );
    // Nothing was mutated: the nullifier is still spendable.
    assert!(pool.nullifiers.nullifiers.is_empty());
}

#[test]
fn unshield_rejects_wrong_recipient() {
    let mut pool = fresh_pool();
    register_key(&mut pool, 2);
    let root = word(1);
    add_root(&mut pool.roots, root, TS).unwrap();
    let recipient = word(7);
    let (lo, hi) = split_address(&recipient);
    let inputs = [root, word(2), lo, hi, amount_word(1000), amount_word(100)];
    let other = word(8);
    assert_eq!(
        submit_unshield(
            &pool.config,
            &pool.vk_unshield,
            &pool.roots,
            &mut pool.nullifiers,
            &other,
            &proof_bytes(),
            &inputs,
            TS
        ),
        Err(ZkPoolError::InvalidRecipient)
    );
}

#[test]
fn unshield_rejects_dirty_address_limbs() {
    let mut pool = fresh_pool();
    register_key(&mut pool, 2);
    let root = word(1);
    add_root(&mut pool.roots, root, TS).unwrap();
    let recipient = word(7);
    let (mut lo, hi) = split_address(&recipient);
    lo[20] = 1;
    let inputs = [root, word(2), lo, hi, amount_word(1000), amount_word(100)];
    assert_eq!(
        submit_unshield(
            &pool.config,
            &pool.vk_unshield,
            &pool.roots,
            &mut pool.nullifiers,
            &recipient,
            &proof_bytes(),
            &inputs,
            TS
        ),
        Err(ZkPoolError::InvalidEncoding)
    );
}

#[test]
fn unshield_rejects_oversized_amount() {
    let mut pool = fresh_pool();
    register_key(&mut pool, 2);
    let root = word(1);
    add_root(&mut pool.roots, root, TS).unwrap();
    let recipient = word(7);
    let (lo, hi) = split_address(&recipient);
    let mut amount = amount_word(1000);
    amount[8] = 1;
    let inputs = [root, word(2), lo, hi, amount, amount_word(100)];
    assert_eq!(
        submit_unshield(
            &pool.config,
            &pool.vk_unshield,
            &pool.roots,
            &mut pool.nullifiers,
            &recipient,
            &proof_bytes(),
            &inputs,
            TS
        ),
        Err(ZkPoolError::AmountTooLarge)
    );
}

#[test]
fn unshield_with_fee_equal_amount_moves_nothing() {
    let mut pool = fresh_pool();
    register_key(&mut pool, 2);
    let root = word(1);
    add_root(&mut pool.roots, root, TS).unwrap();
    let recipient = word(7);
    let (lo, hi) = split_address(&recipient);
    let inputs = [root, word(2), lo, hi, amount_word(250), amount_word(250)];
    let outcome = submit_unshield(
        &pool.config,
        &pool.vk_unshield,
        &pool.roots,
        &mut pool.nullifiers,
        &recipient,
        &proof_bytes(),
        &inputs,
        TS,
    )
    .unwrap();
    assert_eq!(outcome.transfer_amount, 0);
    assert_eq!(outcome.unshielded.amount, 250);
    assert_eq!(outcome.unshielded.fee, 250);
}
