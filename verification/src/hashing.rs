//! Trusted wrappers around the outside hash and commitment primitives.
//!
//! Each digest is given a name: an uninterpreted function of the input
//! bytes alone.  The wrappers below are the only places those names are
//! bound to real computations; everything downstream reasons over the
//! names.

use vstd::prelude::*;
use ethers_core::k256::sha2::{Digest, Sha256};
use crate::word::{be_val, spec_bls_modulus};

verus! {

/// The SHA-256 digest of a byte string.
pub uninterp spec fn sha256_of(data: Seq<u8>) -> Seq<u8>;

/// The Keccak-256 digest of a byte string.
pub uninterp spec fn keccak_of(data: Seq<u8>) -> Seq<u8>;

/// The polynomial commitment to a blob under the standard trusted setup.
pub uninterp spec fn kzg_commitment_of(blob: Seq<u8>) -> Seq<u8>;

/// Relies on sha2's `Sha256` (reached through the curve crate, as the hash
/// of the commitment addressing scheme): a 32-byte digest that depends on
/// the input bytes alone.
#[verifier::external_body]
pub fn sha256(data: &Vec<u8>) -> (r: Vec<u8>)
    ensures
        r@ == sha256_of(data@),
        r@.len() == 32,
{
    let mut hasher = Sha256::new();
    hasher.update(data.as_slice());
    hasher.finalize().to_vec()
}

/// Relies on ethers-core's `keccak256`: a 32-byte digest that depends on
/// the input bytes alone.
#[verifier::external_body]
pub fn keccak256(data: &Vec<u8>) -> (r: Vec<u8>)
    ensures
        r@ == keccak_of(data@),
        r@.len() == 32,
{
    ethers_core::utils::keccak256(data.as_slice()).to_vec()
}

/// Relies on c-kzg's `blob_to_kzg_commitment` with the standard Ethereum
/// trusted setup: a 48-byte commitment that depends on the blob bytes
/// alone.  Its source fixes when the call fails: it rejects exactly a
/// 32-byte chunk of the blob whose big-endian value is not below the
/// commitment curve's scalar modulus, and succeeds otherwise.
#[verifier::external_body]
pub fn kzg_commit(blob_bytes: &Vec<u8>) -> (r: Option<Vec<u8>>)
    requires
        blob_bytes@.len() == 131072,
    ensures
        r is Some <==> (forall|c: int|
            0 <= c < 4096 ==> be_val(#[trigger] blob_bytes@.subrange(32 * c, 32 * c + 32))
                < be_val(spec_bls_modulus())),
        r is Some ==> r->0@ == kzg_commitment_of(blob_bytes@) && r->0@.len() == 48,
{
    let blob = c_kzg::Blob::from_bytes(blob_bytes.as_slice()).ok()?;
    let settings = c_kzg::ethereum_kzg_settings(0);
    let commitment = settings.blob_to_kzg_commitment(&blob).ok()?;
    Some(commitment.to_bytes().into_inner().to_vec())
}

} // verus!
