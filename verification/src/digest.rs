//! Content digest used for verification-key integrity.
//!
//! The digest is computed by an outside cryptographic library; this module
//! gives its result a name that contracts can speak of.  Nothing here
//! states what the digest of particular bytes is — a claimed hash is only
//! ever compared against a freshly computed one.

use vstd::prelude::*;

verus! {

/// The 32-byte content digest of a byte string, as the outside hash
/// function computes it: a pure function of the bytes alone.
pub uninterp spec fn sha256_of(data: Seq<u8>) -> Seq<u8>;

/// Relies on sha2's `Sha256::digest`: the digest depends on the input bytes
/// alone and is always 32 bytes long.
#[verifier::external_body]
pub(crate) fn sha256_digest(data: &Vec<u8>) -> (r: [u8; 32])
    ensures
        r@ == sha256_of(data@),
        r@.len() == 32,
{
    let digest = <sha2::Sha256 as sha2::Digest>::digest(data.as_slice());
    digest.into()
}

} // verus!
