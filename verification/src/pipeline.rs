//! Proof-verification pipeline.
//!
//! Decodes a submitted proof and the stored verification key from the fixed
//! wire layout, checks their structure, and range-checks the public inputs.
//! All wire material is little-endian; the byte-reversal helpers at the end
//! serve hosts whose pairing evaluator expects big-endian encodings.
//!
//! The cryptographic pairing identity
//! `e(A, B) = e(alpha, beta) * e(L, gamma) * e(C, delta)`, with
//! `L = IC[0] + sum(input_i * IC[i+1])`, belongs to the host's external
//! pairing evaluator.  The checks here admit a proof on structure alone —
//! correct lengths, non-degenerate points, in-range inputs — and a
//! deployment must put a real bilinear-pairing evaluator behind this
//! pipeline before admitting value.

use vstd::prelude::*;

use crate::codec::{all_zero, lemma_all_zero_subrange, range_zero, read_word, rev_word,
    field_le_to_be, word_is_zero};
use crate::constants::FIELD_HIGH_BYTE_BOUND;
use crate::errors::ZkPoolError;
use crate::state::{vk_len_spec, VerificationKeyAccount};

verus! {

/// A group-1 curve point: two 32-byte little-endian coordinates.
#[derive(Clone, Copy, Debug)]
pub struct G1Point {
    pub x: [u8; 32],
    pub y: [u8; 32],
}

/// A group-2 curve point: two coordinate pairs of 32-byte little-endian
/// field elements.
#[derive(Clone, Copy, Debug)]
pub struct G2Point {
    pub x: [[u8; 32]; 2],
    pub y: [[u8; 32]; 2],
}

/// A decoded proof: the three curve points of the pairing equation.
#[derive(Clone, Copy, Debug)]
pub struct Groth16Proof {
    pub a: G1Point,
    pub b: G2Point,
    pub c: G1Point,
}

/// A decoded verification key: four fixed curve points and the commitment
/// vector, one group-1 element per public input plus one.
#[derive(Clone, Debug)]
pub struct VerificationKey {
    pub alpha_g1: G1Point,
    pub beta_g2: G2Point,
    pub gamma_g2: G2Point,
    pub delta_g2: G2Point,
    pub ic: Vec<G1Point>,
}

/// The point is the additive identity: both coordinates all-zero.
pub open spec fn g1_is_zero_spec(p: G1Point) -> bool {
    all_zero(p.x@) && all_zero(p.y@)
}

/// The point is the additive identity: all four coordinates all-zero.
pub open spec fn g2_is_zero_spec(p: G2Point) -> bool {
    all_zero(p.x[0]@) && all_zero(p.x[1]@) && all_zero(p.y[0]@) && all_zero(p.y[1]@)
}

/// True iff the group-1 point is the additive identity.
pub fn is_zero_g1(point: &G1Point) -> (r: bool)
    ensures
        r == g1_is_zero_spec(*point),
{
    word_is_zero(&point.x) && word_is_zero(&point.y)
}

/// True iff the group-2 point is the additive identity.
pub fn is_zero_g2(point: &G2Point) -> (r: bool)
    ensures
        r == g2_is_zero_spec(*point),
{
    word_is_zero(&point.x[0]) && word_is_zero(&point.x[1]) && word_is_zero(&point.y[0])
        && word_is_zero(&point.y[1])
}

/// The group-1 point decoded from a 64-byte block: `x` then `y`.
pub open spec fn g1_coords_match(p: G1Point, bytes: Seq<u8>, off: int) -> bool {
    p.x@ == bytes.subrange(off, off + 32) && p.y@ == bytes.subrange(off + 32, off + 64)
}

/// The group-2 point decoded from a 128-byte block: `x0, x1, y0, y1`.
pub open spec fn g2_coords_match(p: G2Point, bytes: Seq<u8>, off: int) -> bool {
    &&& p.x[0]@ == bytes.subrange(off, off + 32)
    &&& p.x[1]@ == bytes.subrange(off + 32, off + 64)
    &&& p.y[0]@ == bytes.subrange(off + 64, off + 96)
    &&& p.y[1]@ == bytes.subrange(off + 96, off + 128)
}

/// Decodes a group-1 point from exactly 64 bytes: `x` then `y`.
pub fn decode_g1(bytes: &[u8]) -> (r: Result<G1Point, ZkPoolError>)
    ensures
        bytes@.len() == 64 ==> r is Ok && g1_coords_match(r->Ok_0, bytes@, 0),
        bytes@.len() != 64 ==> r == Err::<G1Point, ZkPoolError>(ZkPoolError::InvalidVkData),
{
    if bytes.len() != 64 {
        return Err(ZkPoolError::InvalidVkData);
    }
    let x = read_word(bytes, 0);
    let y = read_word(bytes, 32);
    Ok(G1Point { x, y })
}

/// Decodes a group-2 point from exactly 128 bytes: `x0, x1, y0, y1`.
pub fn decode_g2(bytes: &[u8]) -> (r: Result<G2Point, ZkPoolError>)
    ensures
        bytes@.len() == 128 ==> r is Ok && g2_coords_match(r->Ok_0, bytes@, 0),
        bytes@.len() != 128 ==> r == Err::<G2Point, ZkPoolError>(ZkPoolError::InvalidVkData),
{
    if bytes.len() != 128 {
        return Err(ZkPoolError::InvalidVkData);
    }
    let x0 = read_word(bytes, 0);
    let x1 = read_word(bytes, 32);
    let y0 = read_word(bytes, 64);
    let y1 = read_word(bytes, 96);
    Ok(G2Point { x: [x0, x1], y: [y0, y1] })
}

/// The proof decoded from a 256-byte block: `A` (64) then `B` (128) then
/// `C` (64).
pub open spec fn proof_coords_match(p: Groth16Proof, bytes: Seq<u8>) -> bool {
    &&& g1_coords_match(p.a, bytes, 0)
    &&& g2_coords_match(p.b, bytes, 64)
    &&& g1_coords_match(p.c, bytes, 192)
}

/// Decodes a proof from exactly 256 bytes: `A` (64) + `B` (128) + `C` (64).
pub fn decode_proof(proof_bytes: &[u8]) -> (r: Result<Groth16Proof, ZkPoolError>)
    ensures
        proof_bytes@.len() == 256 ==> r is Ok && proof_coords_match(r->Ok_0, proof_bytes@),
        proof_bytes@.len() != 256 ==> r == Err::<Groth16Proof, ZkPoolError>(
            ZkPoolError::InvalidProofData,
        ),
{
    if proof_bytes.len() != 256 {
        return Err(ZkPoolError::InvalidProofData);
    }
    let a_bytes = vstd::slice::slice_subrange(proof_bytes, 0, 64);
    let a = decode_g1(a_bytes)?;
    let b_bytes = vstd::slice::slice_subrange(proof_bytes, 64, 192);
    let b = decode_g2(b_bytes)?;
    let c_bytes = vstd::slice::slice_subrange(proof_bytes, 192, 256);
    let c = decode_g1(c_bytes)?;
    proof {
        lemma_rebase_window(proof_bytes@, 0, 64, 0);
        lemma_rebase_window(proof_bytes@, 0, 64, 32);
        lemma_rebase_window(proof_bytes@, 64, 192, 0);
        lemma_rebase_window(proof_bytes@, 64, 192, 32);
        lemma_rebase_window(proof_bytes@, 64, 192, 64);
        lemma_rebase_window(proof_bytes@, 64, 192, 96);
        lemma_rebase_window(proof_bytes@, 192, 256, 0);
        lemma_rebase_window(proof_bytes@, 192, 256, 32);
    }
    Ok(Groth16Proof { a, b, c })
}

/// A 32-byte window of a subrange, re-based to the enclosing sequence.
proof fn lemma_rebase_window(s: Seq<u8>, a: int, b: int, off: int)
    requires
        0 <= a <= b <= s.len(),
        0 <= off,
        off + 32 <= b - a,
    ensures
        s.subrange(a, b).subrange(off, off + 32) == s.subrange(a + off, a + off + 32),
{
    assert(s.subrange(a, b).subrange(off, off + 32) =~= s.subrange(a + off, a + off + 32));
}

/// The key decoded from its wire block: `alpha` (64), `beta` (128), `gamma`
/// (128), `delta` (128), then the commitment vector.
pub open spec fn key_coords_match(k: VerificationKey, bytes: Seq<u8>, n_public: int) -> bool {
    &&& g1_coords_match(k.alpha_g1, bytes, 0)
    &&& g2_coords_match(k.beta_g2, bytes, 64)
    &&& g2_coords_match(k.gamma_g2, bytes, 192)
    &&& g2_coords_match(k.delta_g2, bytes, 320)
    &&& k.ic@.len() == n_public + 1
    &&& forall|j: int|
        0 <= j < k.ic@.len() ==> g1_coords_match(#[trigger] k.ic@[j], bytes, 448 + 64 * j)
}

/// Decodes a verification key from its stored bytes.  The expected length
/// is `448 + 64 * (n_public + 1)`; any other length is rejected.
pub fn decode_key(vk_bytes: &[u8], n_public: u32) -> (r: Result<VerificationKey, ZkPoolError>)
    requires
        n_public <= 0xFFFF,
    ensures
        vk_bytes@.len() == vk_len_spec(n_public as int) ==> r is Ok && key_coords_match(
            r->Ok_0,
            vk_bytes@,
            n_public as int,
        ),
        vk_bytes@.len() != vk_len_spec(n_public as int) ==> r == Err::<
            VerificationKey,
            ZkPoolError,
        >(ZkPoolError::InvalidVkData),
{
    let expected_len: usize = 448 + (n_public as usize + 1) * 64;
    if vk_bytes.len() != expected_len {
        return Err(ZkPoolError::InvalidVkData);
    }
    let alpha_g1 = decode_g1(vstd::slice::slice_subrange(vk_bytes, 0, 64))?;
    let beta_g2 = decode_g2(vstd::slice::slice_subrange(vk_bytes, 64, 192))?;
    let gamma_g2 = decode_g2(vstd::slice::slice_subrange(vk_bytes, 192, 320))?;
    let delta_g2 = decode_g2(vstd::slice::slice_subrange(vk_bytes, 320, 448))?;
    proof {
        lemma_rebase_window(vk_bytes@, 0, 64, 0);
        lemma_rebase_window(vk_bytes@, 0, 64, 32);
        lemma_rebase_window(vk_bytes@, 64, 192, 0);
        lemma_rebase_window(vk_bytes@, 64, 192, 32);
        lemma_rebase_window(vk_bytes@, 64, 192, 64);
        lemma_rebase_window(vk_bytes@, 64, 192, 96);
        lemma_rebase_window(vk_bytes@, 192, 320, 0);
        lemma_rebase_window(vk_bytes@, 192, 320, 32);
        lemma_rebase_window(vk_bytes@, 192, 320, 64);
        lemma_rebase_window(vk_bytes@, 192, 320, 96);
        lemma_rebase_window(vk_bytes@, 320, 448, 0);
        lemma_rebase_window(vk_bytes@, 320, 448, 32);
        lemma_rebase_window(vk_bytes@, 320, 448, 64);
        lemma_rebase_window(vk_bytes@, 320, 448, 96);
    }
    let count = n_public as usize + 1;
    let mut ic: Vec<G1Point> = Vec::new();
    let mut j: usize = 0;
    while j < count
        invariant
            count == n_public as int + 1,
            n_public <= 0xFFFF,
            vk_bytes@.len() == vk_len_spec(n_public as int),
            j <= count,
            ic@.len() == j,
            forall|k: int| 0 <= k < j ==> g1_coords_match(#[trigger] ic@[k], vk_bytes@, 448 + 64 * k),
        decreases count - j,
    {
        let off = 448 + j * 64;
        let point_bytes = vstd::slice::slice_subrange(vk_bytes, off, off + 64);
        let point = decode_g1(point_bytes)?;
        proof {
            lemma_rebase_window(vk_bytes@, off as int, off as int + 64, 0);
            lemma_rebase_window(vk_bytes@, off as int, off as int + 64, 32);
        }
        ic.push(point);
        j += 1;
    }
    Ok(VerificationKey { alpha_g1, beta_g2, gamma_g2, delta_g2, ic })
}

/// None of the proof's three points is the additive identity.
pub open spec fn proof_structure_ok(p: Groth16Proof) -> bool {
    !g1_is_zero_spec(p.a) && !g2_is_zero_spec(p.b) && !g1_is_zero_spec(p.c)
}

/// The key's `alpha` is non-degenerate and its commitment vector is
/// non-empty.
pub open spec fn vk_structure_ok(k: VerificationKey) -> bool {
    !g1_is_zero_spec(k.alpha_g1) && k.ic@.len() > 0
}

/// Every input word's most-significant byte stays under the scalar-field
/// bound.
pub open spec fn inputs_in_range(inputs: Seq<[u8; 32]>) -> bool {
    forall|i: int| 0 <= i < inputs.len() ==> (#[trigger] inputs[i])@[31] < FIELD_HIGH_BYTE_BOUND
}

/// Rejects a proof whose points include the additive identity.
pub fn validate_proof_structure(proof: &Groth16Proof) -> (r: Result<(), ZkPoolError>)
    ensures
        r is Ok <==> proof_structure_ok(*proof),
        r is Err ==> r == Err::<(), ZkPoolError>(ZkPoolError::InvalidProofData),
{
    if is_zero_g1(&proof.a) {
        return Err(ZkPoolError::InvalidProofData);
    }
    if is_zero_g2(&proof.b) {
        return Err(ZkPoolError::InvalidProofData);
    }
    if is_zero_g1(&proof.c) {
        return Err(ZkPoolError::InvalidProofData);
    }
    Ok(())
}

/// Rejects a key with a degenerate `alpha` or an empty commitment vector.
pub fn validate_vk_structure(vk: &VerificationKey) -> (r: Result<(), ZkPoolError>)
    ensures
        r is Ok <==> vk_structure_ok(*vk),
        r is Err ==> r == Err::<(), ZkPoolError>(ZkPoolError::InvalidVkData),
{
    if is_zero_g1(&vk.alpha_g1) {
        return Err(ZkPoolError::InvalidVkData);
    }
    if vk.ic.len() == 0 {
        return Err(ZkPoolError::InvalidVkData);
    }
    Ok(())
}

/// Rejects any input word whose most-significant byte reaches the
/// scalar-field bound.
pub fn validate_public_inputs(inputs: &[[u8; 32]]) -> (r: Result<(), ZkPoolError>)
    ensures
        r is Ok <==> inputs_in_range(inputs@),
        r is Err ==> r == Err::<(), ZkPoolError>(ZkPoolError::FieldOutOfRange),
{
    let len = inputs.len();
    let mut i: usize = 0;
    while i < len
        invariant
            len == inputs@.len(),
            i <= len,
            forall|k: int| 0 <= k < i ==> (#[trigger] inputs@[k])@[31] < FIELD_HIGH_BYTE_BOUND,
        decreases len - i,
    {
        let word = inputs[i];
        if word[31] >= FIELD_HIGH_BYTE_BOUND {
            assert(inputs@[i as int]@[31] >= FIELD_HIGH_BYTE_BOUND);
            return Err(ZkPoolError::FieldOutOfRange);
        }
        i += 1;
    }
    Ok(())
}

/// What the structural stage of the pipeline returns for decoded values:
/// degenerate proof points, then a degenerate key, then out-of-range
/// inputs, checked in that order.
pub open spec fn verify_groth16_spec(
    proof: Groth16Proof,
    vk: VerificationKey,
    inputs: Seq<[u8; 32]>,
) -> Result<(), ZkPoolError> {
    if !proof_structure_ok(proof) {
        Err(ZkPoolError::InvalidProofData)
    } else if !vk_structure_ok(vk) {
        Err(ZkPoolError::InvalidVkData)
    } else if !inputs_in_range(inputs) {
        Err(ZkPoolError::FieldOutOfRange)
    } else {
        Ok(())
    }
}

/// Structural admission of a decoded proof against a decoded key: the
/// points must be non-degenerate, the commitment vector non-empty, and the
/// inputs in field range.  The pairing identity itself is the host
/// evaluator's to check (see the module notes).
pub fn verify_groth16(
    proof: &Groth16Proof,
    vk: &VerificationKey,
    public_inputs: &[[u8; 32]],
) -> (r: Result<(), ZkPoolError>)
    ensures
        r == verify_groth16_spec(*proof, *vk, public_inputs@),
{
    validate_proof_structure(proof)?;
    validate_vk_structure(vk)?;
    validate_public_inputs(public_inputs)?;
    Ok(())
}

/// The proof block holds a degenerate point: one of `A` (bytes 0..64), `B`
/// (64..192) or `C` (192..256) is all-zero.
pub open spec fn proof_bytes_degenerate(p: Seq<u8>) -> bool {
    range_zero(p, 0, 64) || range_zero(p, 64, 192) || range_zero(p, 192, 256)
}

/// What the whole pipeline returns for a stored key and submitted material,
/// with every stage's rejection in pipeline order: input count, proof
/// length, key length, degenerate proof points, degenerate key, field
/// range.
pub open spec fn verify_proof_spec(
    n_public: int,
    vk_data: Seq<u8>,
    proof: Seq<u8>,
    inputs: Seq<[u8; 32]>,
) -> Result<(), ZkPoolError> {
    if inputs.len() != n_public {
        Err(ZkPoolError::InvalidPublicInputCount)
    } else if proof.len() != 256 {
        Err(ZkPoolError::InvalidProofData)
    } else if vk_data.len() != vk_len_spec(n_public) {
        Err(ZkPoolError::InvalidVkData)
    } else if proof_bytes_degenerate(proof) {
        Err(ZkPoolError::InvalidProofData)
    } else if range_zero(vk_data, 0, 64) {
        Err(ZkPoolError::InvalidVkData)
    } else if !inputs_in_range(inputs) {
        Err(ZkPoolError::FieldOutOfRange)
    } else {
        Ok(())
    }
}

/// Main verification entry point: decodes the proof and the stored key,
/// checks structure and input range, and accepts exactly when every stage
/// accepts.  The protocol-version hash travels with the submission for the
/// host's bookkeeping and takes no part in the decision.
pub fn verify_proof(
    vk_account: &VerificationKeyAccount,
    proof_bytes: &[u8],
    public_inputs: &[[u8; 32]],
    _abi_hash: &[u8; 32],
) -> (r: Result<(), ZkPoolError>)
    requires
        vk_account.n_public <= 0xFFFF,
    ensures
        r == verify_proof_spec(
            vk_account.n_public as int,
            vk_account.vk_data@,
            proof_bytes@,
            public_inputs@,
        ),
{
    if public_inputs.len() != vk_account.n_public as usize {
        return Err(ZkPoolError::InvalidPublicInputCount);
    }
    let proof = match decode_proof(proof_bytes) {
        Ok(p) => p,
        Err(e) => {
            return Err(e);
        },
    };
    let vk = match decode_key(vk_account.vk_data.as_slice(), vk_account.n_public) {
        Ok(k) => k,
        Err(e) => {
            return Err(e);
        },
    };
    proof {
        lemma_decoded_proof_structure(proof, proof_bytes@);
        lemma_all_zero_subrange(vk_account.vk_data@, 0, 32);
        lemma_all_zero_subrange(vk_account.vk_data@, 32, 64);
        assert(g1_is_zero_spec(vk.alpha_g1) <==> range_zero(vk_account.vk_data@, 0, 64));
    }
    verify_groth16(&proof, &vk, public_inputs)
}

/// Ties the zero tests of the decoded points to zero ranges of the raw
/// proof block.
proof fn lemma_decoded_proof_structure(p: Groth16Proof, bytes: Seq<u8>)
    requires
        bytes.len() == 256,
        proof_coords_match(p, bytes),
    ensures
        g1_is_zero_spec(p.a) <==> range_zero(bytes, 0, 64),
        g2_is_zero_spec(p.b) <==> range_zero(bytes, 64, 192),
        g1_is_zero_spec(p.c) <==> range_zero(bytes, 192, 256),
{
    lemma_all_zero_subrange(bytes, 0, 32);
    lemma_all_zero_subrange(bytes, 32, 64);
    lemma_all_zero_subrange(bytes, 64, 96);
    lemma_all_zero_subrange(bytes, 96, 128);
    lemma_all_zero_subrange(bytes, 128, 160);
    lemma_all_zero_subrange(bytes, 160, 192);
    lemma_all_zero_subrange(bytes, 192, 224);
    lemma_all_zero_subrange(bytes, 224, 256);
}

/// Reverses the byte order of both coordinates of a group-1 point.
pub fn g1_le_to_be(le: &G1Point) -> (r: G1Point)
    ensures
        r.x@ == rev_word(le.x@),
        r.y@ == rev_word(le.y@),
{
    G1Point { x: field_le_to_be(&le.x), y: field_le_to_be(&le.y) }
}

/// Reverses the byte order of all four coordinates of a group-2 point.
pub fn g2_le_to_be(le: &G2Point) -> (r: G2Point)
    ensures
        r.x[0]@ == rev_word(le.x[0]@),
        r.x[1]@ == rev_word(le.x[1]@),
        r.y[0]@ == rev_word(le.y[0]@),
        r.y[1]@ == rev_word(le.y[1]@),
{
    G2Point {
        x: [field_le_to_be(&le.x[0]), field_le_to_be(&le.x[1])],
        y: [field_le_to_be(&le.y[0]), field_le_to_be(&le.y[1])],
    }
}

/// Reverses the byte order of every coordinate of a proof.
pub fn convert_proof_to_be(le: &Groth16Proof) -> (r: Groth16Proof)
    ensures
        r.a.x@ == rev_word(le.a.x@),
        r.a.y@ == rev_word(le.a.y@),
        r.b.x[0]@ == rev_word(le.b.x[0]@),
        r.b.x[1]@ == rev_word(le.b.x[1]@),
        r.b.y[0]@ == rev_word(le.b.y[0]@),
        r.b.y[1]@ == rev_word(le.b.y[1]@),
        r.c.x@ == rev_word(le.c.x@),
        r.c.y@ == rev_word(le.c.y@),
{
    Groth16Proof { a: g1_le_to_be(&le.a), b: g2_le_to_be(&le.b), c: g1_le_to_be(&le.c) }
}

/// Reverses the byte order of every coordinate of a verification key,
/// commitment vector included.
pub fn convert_vk_to_be(le: &VerificationKey) -> (r: VerificationKey)
    ensures
        r.alpha_g1.x@ == rev_word(le.alpha_g1.x@),
        r.alpha_g1.y@ == rev_word(le.alpha_g1.y@),
        r.ic@.len() == le.ic@.len(),
        forall|j: int|
            0 <= j < le.ic@.len() ==> (#[trigger] r.ic@[j]).x@ == rev_word(le.ic@[j].x@)
                && r.ic@[j].y@ == rev_word(le.ic@[j].y@),
{
    let mut ic: Vec<G1Point> = Vec::new();
    let mut j: usize = 0;
    let len = le.ic.len();
    while j < len
        invariant
            len == le.ic@.len(),
            j <= len,
            ic@.len() == j,
            forall|k: int|
                0 <= k < j ==> (#[trigger] ic@[k]).x@ == rev_word(le.ic@[k].x@) && ic@[k].y@
                    == rev_word(le.ic@[k].y@),
        decreases len - j,
    {
        ic.push(g1_le_to_be(&le.ic[j]));
        j += 1;
    }
    VerificationKey {
        alpha_g1: g1_le_to_be(&le.alpha_g1),
        beta_g2: g2_le_to_be(&le.beta_g2),
        gamma_g2: g2_le_to_be(&le.gamma_g2),
        delta_g2: g2_le_to_be(&le.delta_g2),
        ic,
    }
}

/// Reverses the byte order of every public-input word.
pub fn convert_inputs_to_be(le: &[[u8; 32]]) -> (r: Vec<[u8; 32]>)
    ensures
        r@.len() == le@.len(),
        forall|j: int| 0 <= j < le@.len() ==> (#[trigger] r@[j])@ == rev_word(le@[j]@),
{
    let mut out: Vec<[u8; 32]> = Vec::new();
    let mut j: usize = 0;
    let len = le.len();
    while j < len
        invariant
            len == le@.len(),
            j <= len,
            out@.len() == j,
            forall|k: int| 0 <= k < j ==> (#[trigger] out@[k])@ == rev_word(le@[k]@),
        decreases len - j,
    {
        let word = le[j];
        out.push(field_le_to_be(&word));
        j += 1;
    }
    out
}

} // verus!
