//! Byte-level codec of the wire format.
//!
//! All field and address material travels as 32-byte words, little-endian.
//! An address is split over two words, each carrying 16 significant bytes in
//! its lower half; an amount occupies the low 8 bytes of one word.  Reserved
//! bytes must be zero: nothing is silently truncated.

use vstd::prelude::*;

use crate::errors::ZkPoolError;

verus! {

/// Every byte of `s` is zero.
pub open spec fn all_zero(s: Seq<u8>) -> bool {
    forall|i: int| 0 <= i < s.len() ==> s[i] == 0
}

/// Every byte of `s` in the index range `[a, b)` is zero.
pub open spec fn range_zero(s: Seq<u8>, a: int, b: int) -> bool {
    forall|i: int| a <= i < b ==> s[i] == 0
}

/// `all_zero` of a subrange is `range_zero` of the enclosing sequence.
pub proof fn lemma_all_zero_subrange(s: Seq<u8>, a: int, b: int)
    requires
        0 <= a <= b <= s.len(),
    ensures
        all_zero(s.subrange(a, b)) <==> range_zero(s, a, b),
{
    if all_zero(s.subrange(a, b)) {
        assert forall|i: int| a <= i < b implies s[i] == 0 by {
            assert(s.subrange(a, b)[i - a] == 0);
        }
    }
    if range_zero(s, a, b) {
        assert forall|i: int| 0 <= i < b - a implies s.subrange(a, b)[i] == 0 by {
            assert(s[a + i] == 0);
        }
    }
}

/// True iff all 32 bytes of the word are zero.
pub fn word_is_zero(w: &[u8; 32]) -> (r: bool)
    ensures
        r == all_zero(w@),
{
    let mut i: usize = 0;
    while i < 32
        invariant
            i <= 32,
            forall|k: int| 0 <= k < i ==> w@[k] == 0,
        decreases 32 - i,
    {
        if w[i] != 0 {
            assert(w@[i as int] != 0);
            return false;
        }
        i += 1;
    }
    true
}

/// Byte-wise equality of two 32-byte words.
pub fn word_eq(a: &[u8; 32], b: &[u8; 32]) -> (r: bool)
    ensures
        r == (a@ == b@),
{
    let mut i: usize = 0;
    while i < 32
        invariant
            i <= 32,
            forall|k: int| 0 <= k < i ==> a@[k] == b@[k],
        decreases 32 - i,
    {
        if a[i] != b[i] {
            assert(a@[i as int] != b@[i as int]);
            return false;
        }
        i += 1;
    }
    assert(a@ =~= b@);
    true
}

/// Copies the 32 bytes of `bytes` starting at `offset` into a fresh word.
pub fn read_word(bytes: &[u8], offset: usize) -> (r: [u8; 32])
    requires
        offset + 32 <= bytes@.len(),
    ensures
        r@ == bytes@.subrange(offset as int, offset as int + 32),
{
    let n = bytes.len();
    let mut w = [0u8; 32];
    let mut i: usize = 0;
    while i < 32
        invariant
            i <= 32,
            offset + 32 <= n == bytes@.len(),
            forall|k: int| 0 <= k < i ==> w@[k] == bytes@[offset + k],
        decreases 32 - i,
    {
        w[i] = bytes[offset + i];
        i += 1;
    }
    assert(w@ =~= bytes@.subrange(offset as int, offset as int + 32));
    w
}

/// Both address words carry zeros in their reserved upper 16 bytes.
pub open spec fn address_words_ok(lo: Seq<u8>, hi: Seq<u8>) -> bool {
    range_zero(lo, 16, 32) && range_zero(hi, 16, 32)
}

/// The 32-byte address held by a two-word split encoding: the low 16 bytes
/// of `lo` followed by the low 16 bytes of `hi`.
pub open spec fn spec_join_address(lo: Seq<u8>, hi: Seq<u8>) -> Seq<u8> {
    lo.subrange(0, 16) + hi.subrange(0, 16)
}

/// What `decode_address` returns for a pair of limb words.
pub open spec fn decode_address_spec(lo: Seq<u8>, hi: Seq<u8>) -> Result<Seq<u8>, ZkPoolError> {
    if address_words_ok(lo, hi) {
        Ok(spec_join_address(lo, hi))
    } else {
        Err(ZkPoolError::InvalidEncoding)
    }
}

/// Joins the two 16-byte limbs of a split address without validating the
/// reserved bytes.
pub fn reconstruct_recipient(lo: &[u8; 32], hi: &[u8; 32]) -> (r: [u8; 32])
    ensures
        r@ == spec_join_address(lo@, hi@),
{
    let mut addr = [0u8; 32];
    let mut i: usize = 0;
    while i < 16
        invariant
            i <= 16,
            forall|k: int| 0 <= k < i ==> addr@[k] == lo@[k],
        decreases 16 - i,
    {
        addr[i] = lo[i];
        i += 1;
    }
    let mut j: usize = 0;
    while j < 16
        invariant
            j <= 16,
            forall|k: int| 0 <= k < 16 ==> addr@[k] == lo@[k],
            forall|k: int| 0 <= k < j ==> addr@[16 + k] == hi@[k],
        decreases 16 - j,
    {
        addr[16 + j] = hi[j];
        j += 1;
    }
    assert(addr@ =~= spec_join_address(lo@, hi@));
    addr
}

/// Decodes a 32-byte address from its split limb words: the result is
/// low-16(`lo`) followed by low-16(`hi`).  Rejects the pair unless the upper
/// 16 bytes of both words are zero.
pub fn decode_address(lo: &[u8; 32], hi: &[u8; 32]) -> (r: Result<[u8; 32], ZkPoolError>)
    ensures
        address_words_ok(lo@, hi@) ==> r is Ok && r->Ok_0@ == spec_join_address(lo@, hi@),
        !address_words_ok(lo@, hi@) ==> r == Err::<[u8; 32], ZkPoolError>(
            ZkPoolError::InvalidEncoding,
        ),
{
    let mut i: usize = 16;
    while i < 32
        invariant
            16 <= i <= 32,
            forall|k: int| 16 <= k < i ==> lo@[k] == 0 && hi@[k] == 0,
        decreases 32 - i,
    {
        if lo[i] != 0 || hi[i] != 0 {
            assert(lo@[i as int] != 0 || hi@[i as int] != 0);
            return Err(ZkPoolError::InvalidEncoding);
        }
        i += 1;
    }
    Ok(reconstruct_recipient(lo, hi))
}

/// The amount word carries zeros in its reserved bytes `8..32`.
pub open spec fn amount_word_ok(w: Seq<u8>) -> bool {
    range_zero(w, 8, 32)
}

/// The 64-bit value held by an amount word: the little-endian reading of its
/// low 8 bytes.
pub open spec fn amount_value(w: Seq<u8>) -> u64 {
    vstd::bytes::spec_u64_from_le_bytes(w.subrange(0, 8))
}

/// What `decode_amount` returns for a field word.
pub open spec fn decode_amount_spec(w: Seq<u8>) -> Result<u64, ZkPoolError> {
    if amount_word_ok(w) {
        Ok(amount_value(w))
    } else {
        Err(ZkPoolError::AmountTooLarge)
    }
}

/// Decodes a 64-bit amount from a 32-byte field word: the little-endian
/// value of bytes `0..8`.  Rejects the word unless bytes `8..32` are zero,
/// so no value is silently truncated.
pub fn decode_amount(field: &[u8; 32]) -> (r: Result<u64, ZkPoolError>)
    ensures
        r == decode_amount_spec(field@),
{
    let mut i: usize = 8;
    while i < 32
        invariant
            8 <= i <= 32,
            forall|k: int| 8 <= k < i ==> field@[k] == 0,
        decreases 32 - i,
    {
        if field[i] != 0 {
            assert(field@[i as int] != 0);
            return Err(ZkPoolError::AmountTooLarge);
        }
        i += 1;
    }
    let low = vstd::slice::slice_subrange(field.as_slice(), 0, 8);
    let value = vstd::bytes::u64_from_le_bytes(low);
    Ok(value)
}

/// The byte-reversed reading of a 32-byte word.
pub open spec fn rev_word(s: Seq<u8>) -> Seq<u8> {
    Seq::new(32, |i: int| s[31 - i])
}

/// Reverses the byte order of a 32-byte field element (little-endian to
/// big-endian or back).
pub fn field_le_to_be(le: &[u8; 32]) -> (be: [u8; 32])
    ensures
        be@ == rev_word(le@),
{
    let mut be = [0u8; 32];
    let mut i: usize = 0;
    while i < 32
        invariant
            i <= 32,
            forall|k: int| 0 <= k < i ==> be@[k] == le@[31 - k],
        decreases 32 - i,
    {
        be[i] = le[31 - i];
        i += 1;
    }
    assert(be@ =~= rev_word(le@));
    be
}

} // verus!
