use zk_pool::constants::{MAX_NULLIFIERS_PER_SHARD, TRANSFER_PUBLIC_INPUTS};
use zk_pool::errors::ZkPoolError;
use zk_pool::instructions::initialize;
use zk_pool::state::{
    get_nullifier_shard, NullifiersAccount, PoolConfig, RootsAccount, VerificationKeyAccount,
};

fn word(tag: u8) -> [u8; 32] {
    let mut w = [0u8; 32];
    w[0] = tag;
    w[1] = tag.wrapping_mul(7);
    w
}

fn fresh_roots(capacity: u16) -> RootsAccount {
    let (pool, _) = initialize([9u8; 32], 20, capacity, [0u8; 32], 0).unwrap();
    pool.roots
}

#[test]
fn root_window_wraparound() {
    let mut roots = fresh_roots(4);
    for tag in 1..=5u8 {
        roots.add_root(word(tag));
    }
    // The last `capacity` roots are present, the first is gone.
    for tag in 2..=5u8 {
        assert!(roots.contains_root(&word(tag)));
    }
    assert!(!roots.contains_root(&word(1)));
    assert_eq!(roots.cursor, 1);
    assert_eq!(roots.size, 4);
}

#[test]
fn root_window_fills_before_wrapping() {
    let mut roots = fresh_roots(3);
    assert!(!roots.contains_root(&word(1)));
    roots.add_root(word(1));
    roots.add_root(word(2));
    assert!(roots.contains_root(&word(1)));
    assert!(roots.contains_root(&word(2)));
    assert!(!roots.contains_root(&word(3)));
    assert_eq!(roots.cursor, 2);
    assert_eq!(roots.size, 2);
}

#[test]
fn nullifier_second_insert_fails() {
    let mut ns = NullifiersAccount { shard: 0, nullifiers: Vec::new() };
    assert_eq!(ns.mark_spent(word(8)), Ok(()));
    assert_eq!(ns.nullifiers.len(), 1);
    assert!(ns.is_spent(&word(8)));
    assert_eq!(ns.mark_spent(word(8)), Err(ZkPoolError::NullifierSpent));
    assert_eq!(ns.nullifiers.len(), 1);
}

#[test]
fn nullifier_insert_at_capacity_fails() {
    let mut entries: Vec<[u8; 32]> = Vec::with_capacity(MAX_NULLIFIERS_PER_SHARD);
    for i in 0..MAX_NULLIFIERS_PER_SHARD as u32 {
        let mut w = [0u8; 32];
        w[..4].copy_from_slice(&i.to_le_bytes());
        entries.push(w);
    }
    let mut ns = NullifiersAccount { shard: 0, nullifiers: entries };
    let mut fresh = [0u8; 32];
    fresh[31] = 1;
    assert_eq!(ns.mark_spent(fresh), Err(ZkPoolError::NullifierCapacityExceeded));
    assert_eq!(ns.nullifiers.len(), MAX_NULLIFIERS_PER_SHARD);
    assert!(!ns.is_spent(&fresh));
}

#[test]
fn nullifier_shard_routing_is_fixed() {
    assert_eq!(get_nullifier_shard(&word(3)), 0);
    assert_eq!(get_nullifier_shard(&[0xffu8; 32]), 0);
}

#[test]
fn vk_account_lengths() {
    assert_eq!(VerificationKeyAccount::vk_data_len(1), 448 + 2 * 64);
    assert_eq!(VerificationKeyAccount::vk_data_len(4), 448 + 5 * 64);
    assert_eq!(VerificationKeyAccount::vk_data_len(6), 448 + 7 * 64);
    assert_eq!(
        VerificationKeyAccount::space_for(1),
        VerificationKeyAccount::BASE_LEN + 448 + 2 * 64
    );
    assert_eq!(RootsAccount::space_for(64), RootsAccount::BASE_LEN + 64 * 32);
    assert_eq!(
        NullifiersAccount::space_for(100),
        NullifiersAccount::BASE_LEN + 100 * 32
    );
    assert_eq!(PoolConfig::LEN, 8 + 32 + 1 + 2 + 32 + 96 + 1 + 1);
}

#[test]
fn vk_account_validates_input_count() {
    let ok = VerificationKeyAccount {
        circuit: 1,
        n_public: TRANSFER_PUBLIC_INPUTS as u32,
        vk_data: Vec::new(),
        vk_hash: [0u8; 32],
    };
    assert_eq!(ok.validate_n_public(), Ok(()));

    let wrong_count = VerificationKeyAccount { n_public: 5, ..ok.clone() };
    assert_eq!(
        wrong_count.validate_n_public(),
        Err(ZkPoolError::InvalidPublicInputCount)
    );

    let bad_circuit = VerificationKeyAccount { circuit: 3, ..ok };
    assert_eq!(
        bad_circuit.validate_n_public(),
        Err(ZkPoolError::InvalidCircuitType)
    );
}
