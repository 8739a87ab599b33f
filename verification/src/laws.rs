//! Pool-wide laws, stated and proved over the same spec functions the
//! operations' contracts use.

use vstd::prelude::*;

use crate::codec::{
    address_words_ok, amount_word_ok, decode_address_spec, decode_amount_spec, range_zero,
    spec_join_address,
};
use crate::constants::MAX_NULLIFIERS_PER_SHARD;
use crate::errors::ZkPoolError;
use crate::events::{NewCommitment, NullifierSpent};
use crate::instructions::{
    submit_shield_spec, submit_transfer_spec, submit_unshield_spec, UnshieldOutcome,
};
use crate::state::{
    mark_spent_spec, spent_in, NullifiersAccount, PoolConfig, RootsAccount,
    VerificationKeyAccount,
};

verus! {

/// A sequence of `n` zero bytes.
pub open spec fn zero_bytes(n: nat) -> Seq<u8> {
    Seq::new(n, |i: int| 0u8)
}

/// One append to the circular window, as `RootsAccount::add_root` performs
/// it on the slot array, cursor and fill count: write at the cursor,
/// advance it modulo the capacity, saturate the count.
pub open spec fn window_append(
    slots: Seq<[u8; 32]>,
    cursor: int,
    size: int,
    capacity: int,
    root: [u8; 32],
) -> (Seq<[u8; 32]>, int, int) {
    (
        slots.update(cursor, root),
        (cursor + 1) % capacity,
        if size < capacity {
            size + 1
        } else {
            size
        },
    )
}

/// The window's parts after appending every root of `rs`, oldest first.
pub open spec fn window_after(
    slots: Seq<[u8; 32]>,
    cursor: int,
    size: int,
    capacity: int,
    rs: Seq<[u8; 32]>,
) -> (Seq<[u8; 32]>, int, int)
    decreases rs.len(),
{
    if rs.len() == 0 {
        (slots, cursor, size)
    } else {
        let prev = window_after(slots, cursor, size, capacity, rs.drop_last());
        window_append(prev.0, prev.1, prev.2, capacity, rs.last())
    }
}

/// Membership among the filled slots, as `RootsAccount::contains_root`
/// tests it.
pub open spec fn window_contains(slots: Seq<[u8; 32]>, size: int, root: [u8; 32]) -> bool {
    exists|i: int| 0 <= i < size && slots[i]@ == root@
}

/// While a fresh window is still filling, the appended roots sit in order
/// in the slot prefix, the cursor trails the appends, and nothing beyond
/// the prefix is touched.
proof fn lemma_window_fill(slots0: Seq<[u8; 32]>, capacity: int, rs: Seq<[u8; 32]>)
    requires
        1 <= capacity,
        slots0.len() == capacity,
        rs.len() <= capacity,
    ensures
        ({
            let w = window_after(slots0, 0, 0, capacity, rs);
            &&& w.0.len() == capacity
            &&& w.1 == rs.len() as int % capacity
            &&& w.2 == rs.len()
            &&& forall|i: int| 0 <= i < rs.len() ==> w.0[i] == rs[i]
            &&& forall|i: int| rs.len() <= i < capacity ==> w.0[i] == slots0[i]
        }),
    decreases rs.len(),
{
    let w = window_after(slots0, 0, 0, capacity, rs);
    if rs.len() == 0 {
        vstd::arithmetic::div_mod::lemma_small_mod(0, capacity as nat);
    } else {
        let k = rs.len() as int - 1;
        lemma_window_fill(slots0, capacity, rs.drop_last());
        let prev = window_after(slots0, 0, 0, capacity, rs.drop_last());
        vstd::arithmetic::div_mod::lemma_small_mod(k as nat, capacity as nat);
        assert(prev.1 == k);
        if k + 1 < capacity {
            vstd::arithmetic::div_mod::lemma_small_mod((k + 1) as nat, capacity as nat);
        } else {
            vstd::arithmetic::div_mod::lemma_mod_multiples_basic(1, capacity);
        }
        assert(w.0 == prev.0.update(k, rs.last()));
        assert(forall|i: int| 0 <= i < k ==> w.0[i] == rs.drop_last()[i]);
        assert(forall|i: int| 0 <= i < k ==> rs.drop_last()[i] == rs[i]);
    }
}

/// Wraparound law of the root window.  Starting from a fresh window of any
/// capacity of at least two slots, appending `capacity + 1` pairwise
/// distinct roots leaves the window containing each of the last `capacity`
/// appended roots and no longer containing the first, with the cursor back
/// at slot one and the fill count saturated.  (A one-slot window satisfies
/// everything but the cursor clause: its cursor wraps to zero.)
pub proof fn lemma_root_window_wraparound(
    slots0: Seq<[u8; 32]>,
    capacity: int,
    rs: Seq<[u8; 32]>,
)
    requires
        2 <= capacity,
        slots0.len() == capacity,
        rs.len() == capacity + 1,
        forall|i: int, j: int| 0 <= i < j < rs.len() ==> rs[i]@ != rs[j]@,
    ensures
        ({
            let w = window_after(slots0, 0, 0, capacity, rs);
            &&& w.1 == 1
            &&& w.2 == capacity
            &&& forall|k: int| 1 <= k <= capacity ==> window_contains(w.0, w.2, #[trigger] rs[k])
            &&& !window_contains(w.0, w.2, rs[0])
        }),
{
    let filled = window_after(slots0, 0, 0, capacity, rs.drop_last());
    lemma_window_fill(slots0, capacity, rs.drop_last());
    vstd::arithmetic::div_mod::lemma_mod_multiples_basic(1, capacity);
    assert(filled.1 == 0);
    assert(filled.2 == capacity);
    let w = window_after(slots0, 0, 0, capacity, rs);
    assert(w.0 == filled.0.update(0, rs.last()));
    vstd::arithmetic::div_mod::lemma_small_mod(1, capacity as nat);
    assert(w.1 == 1);
    assert(rs.last() == rs[capacity]);
    assert forall|k: int| 1 <= k <= capacity implies window_contains(w.0, w.2, #[trigger] rs[k]) by {
        if k < capacity {
            assert(w.0[k] == rs.drop_last()[k]);
            assert(w.0[k] == rs[k]);
        } else {
            assert(w.0[0] == rs[capacity]);
        }
    }
    assert forall|i: int| 0 <= i < capacity implies w.0[i]@ != rs[0]@ by {
        if i == 0 {
            assert(w.0[0] == rs[capacity]);
        } else {
            assert(w.0[i] == rs.drop_last()[i]);
            assert(w.0[i] == rs[i]);
        }
    }
}

/// The model speaks for the account.  A window whose fields moved as one
/// `add_root` call's contract describes has moved by exactly one
/// `window_append` step, and `contains_root`'s membership is
/// `window_contains` of its fields.
pub proof fn lemma_window_model_matches_account(
    pre: RootsAccount,
    post: RootsAccount,
    root: [u8; 32],
    probe: [u8; 32],
)
    requires
        pre.wf(),
        post.capacity == pre.capacity,
        post.roots@ == pre.roots@.update(pre.cursor as int, root),
        post.cursor == (pre.cursor + 1) % (pre.capacity as int),
        post.size == (if pre.size < pre.capacity {
            pre.size + 1
        } else {
            pre.size as int
        }),
    ensures
        (post.roots@, post.cursor as int, post.size as int) == window_append(
            pre.roots@,
            pre.cursor as int,
            pre.size as int,
            pre.capacity as int,
            root,
        ),
        post.root_in_window(probe@) == window_contains(post.roots@, post.size as int, probe),
{
}

/// Insert-once law of the double-spend guard.  A successful insert grows
/// the record by exactly one entry, and an immediate second insert of the
/// same nullifier is rejected as already spent.
pub proof fn lemma_nullifier_insert_once(ns: Seq<Seq<u8>>, n: Seq<u8>)
    requires
        mark_spent_spec(ns, n) is Ok,
    ensures
        ({
            let ns1 = mark_spent_spec(ns, n)->Ok_0;
            &&& ns1.len() == ns.len() + 1
            &&& mark_spent_spec(ns1, n) == Err::<Seq<Seq<u8>>, ZkPoolError>(
                ZkPoolError::NullifierSpent,
            )
        }),
{
    let ns1 = mark_spent_spec(ns, n)->Ok_0;
    assert(ns1[ns.len() as int] == n);
    assert(spent_in(ns1, n));
}

/// Capacity law of the double-spend guard.  An insert of a fresh nullifier
/// into a full shard is rejected as capacity exceeded; `mark_spent`'s
/// contract adds that any rejection leaves the record unchanged.
pub proof fn lemma_nullifier_capacity(ns: Seq<Seq<u8>>, n: Seq<u8>)
    requires
        !spent_in(ns, n),
        ns.len() >= MAX_NULLIFIERS_PER_SHARD,
    ensures
        mark_spent_spec(ns, n) == Err::<Seq<Seq<u8>>, ZkPoolError>(
            ZkPoolError::NullifierCapacityExceeded,
        ),
{
}

/// Address round-trip law.  Any 32-byte address survives the split into
/// low and high limb words and the decoding back.
pub proof fn lemma_address_round_trip(addr: Seq<u8>)
    requires
        addr.len() == 32,
    ensures
        ({
            let lo = addr.subrange(0, 16) + zero_bytes(16);
            let hi = addr.subrange(16, 32) + zero_bytes(16);
            decode_address_spec(lo, hi) == Ok::<Seq<u8>, ZkPoolError>(addr)
        }),
{
    let lo = addr.subrange(0, 16) + zero_bytes(16);
    let hi = addr.subrange(16, 32) + zero_bytes(16);
    assert forall|i: int| 16 <= i < 32 implies lo[i] == 0 && hi[i] == 0 by {
        assert(lo[i] == zero_bytes(16)[i - 16]);
        assert(hi[i] == zero_bytes(16)[i - 16]);
    }
    assert(address_words_ok(lo, hi));
    assert(spec_join_address(lo, hi) =~= addr);
}

/// Address rejection law: a limb pair with any non-zero byte in a reserved
/// upper half decodes to the encoding rejection.
pub proof fn lemma_address_rejects_dirty_limbs(lo: Seq<u8>, hi: Seq<u8>)
    requires
        !address_words_ok(lo, hi),
    ensures
        decode_address_spec(lo, hi) == Err::<Seq<u8>, ZkPoolError>(ZkPoolError::InvalidEncoding),
{
}

/// Amount round-trip law.  Every 64-bit value survives encoding into the
/// low 8 bytes of a field word and decoding back.
pub proof fn lemma_amount_round_trip(v: u64)
    ensures
        ({
            let w = vstd::bytes::spec_u64_to_le_bytes(v) + zero_bytes(24);
            decode_amount_spec(w) == Ok::<u64, ZkPoolError>(v)
        }),
{
    vstd::bytes::lemma_auto_spec_u64_to_from_le_bytes();
    let w = vstd::bytes::spec_u64_to_le_bytes(v) + zero_bytes(24);
    assert(w.subrange(0, 8) =~= vstd::bytes::spec_u64_to_le_bytes(v));
    assert forall|i: int| 8 <= i < 32 implies w[i] == 0 by {
        assert(w[i] == zero_bytes(24)[i - 8]);
    }
    assert(amount_word_ok(w));
}

/// Amount rejection law: a field word with any non-zero byte beyond its
/// low 8 decodes to the overflow rejection, whatever its low bytes hold.
pub proof fn lemma_amount_rejects_high_bytes(w: Seq<u8>)
    requires
        !amount_word_ok(w),
    ensures
        decode_amount_spec(w) == Err::<u64, ZkPoolError>(ZkPoolError::AmountTooLarge),
{
}

/// Resubmission law.  After a transfer is admitted and its nullifier
/// recorded, submitting the identical transfer against the new record is
/// rejected as a double spend, whatever the timestamps.
pub proof fn lemma_transfer_resubmission_fails(
    config: PoolConfig,
    vk: VerificationKeyAccount,
    roots: RootsAccount,
    before: NullifiersAccount,
    after: NullifiersAccount,
    proof: Seq<u8>,
    inputs: Seq<[u8; 32]>,
    t1: i64,
    t2: i64,
)
    requires
        submit_transfer_spec(config, vk, roots, before, proof, inputs, t1) is Ok,
        after.entries() == before.entries().push(inputs[1]@),
    ensures
        submit_transfer_spec(config, vk, roots, after, proof, inputs, t2) == Err::<
            (NullifierSpent, NewCommitment),
            ZkPoolError,
        >(ZkPoolError::NullifierSpent),
{
    assert(after.entries()[before.entries().len() as int] == inputs[1]@);
    assert(spent_in(after.entries(), inputs[1]@));
}

/// Pause-gate law.  With the pool paused, each of the three submit
/// operations is rejected as paused, whatever key, window, nullifier
/// record, destination, proof or inputs the submission carries.
pub proof fn lemma_pause_gate(
    config: PoolConfig,
    vk: VerificationKeyAccount,
    roots: RootsAccount,
    nullifiers: NullifiersAccount,
    recipient: [u8; 32],
    proof: Seq<u8>,
    inputs: Seq<[u8; 32]>,
    timestamp: i64,
)
    requires
        config.paused,
    ensures
        submit_shield_spec(config, vk, proof, inputs, timestamp) == Err::<
            NewCommitment,
            ZkPoolError,
        >(ZkPoolError::PoolPaused),
        submit_transfer_spec(config, vk, roots, nullifiers, proof, inputs, timestamp) == Err::<
            (NullifierSpent, NewCommitment),
            ZkPoolError,
        >(ZkPoolError::PoolPaused),
        submit_unshield_spec(
            config,
            vk,
            roots,
            nullifiers,
            recipient,
            proof,
            inputs,
            timestamp,
        ) == Err::<UnshieldOutcome, ZkPoolError>(ZkPoolError::PoolPaused),
{
}

} // verus!
