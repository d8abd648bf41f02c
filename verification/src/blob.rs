//! The blob consistency subsystem: binds raw batch bytes to the on-chain
//! blob commitment.
//!
//! The raw payload is packed into a fixed number of scalar coefficients,
//! the blob built from them is committed to under the standard trusted
//! setup, the commitment is hashed and tagged into the versioned hash, and
//! a challenge digest is derived from the batch metadata and that hash.
//! The challenge point is the digest reduced into the commitment curve's
//! scalar field.  The whole witness is a pure function of the raw bytes and
//! the metadata; the polynomial evaluation at the challenge point is
//! computed by the external circuit witness generator and is only carried
//! here.

use vstd::prelude::*;
use crate::hashing::{sha256, sha256_of, keccak256, keccak_of, kzg_commit, kzg_commitment_of};
use crate::word::{be_val, be_reduce, spec_bls_modulus, bls_modulus, lemma_bls_modulus_wf};

verus! {

/// Number of scalar coefficients a blob holds.
pub const BLOB_WIDTH: usize = 4096;

/// Number of payload bytes packed into each coefficient: the top byte of
/// every coefficient stays zero so that it lies in the scalar field's
/// canonical range.
pub const N_DATA_BYTES_PER_COEFFICIENT: usize = 31;

/// The largest payload a blob can carry.
pub const N_BLOB_BYTES: usize = BLOB_WIDTH * N_DATA_BYTES_PER_COEFFICIENT;

/// Number of bytes a whole blob occupies: one 32-byte word per coefficient.
pub const N_BYTES_BLOB_WORDS: usize = BLOB_WIDTH * 32;

/// The version tag written over byte 0 of the commitment hash.
pub const VERSIONED_HASH_VERSION_KZG: u8 = 1;

/// Byte `j` of coefficient `c`: payload byte `31 * c + j - 1`, or zero for
/// the reserved top byte and past the payload's end.
pub open spec fn spec_coeff_byte(bytes: Seq<u8>, c: int, j: int) -> u8 {
    if 1 <= j < 32 && 31 * c + (j - 1) < bytes.len() {
        bytes[31 * c + (j - 1)]
    } else {
        0
    }
}

/// Coefficient `c` as a 32-byte big-endian word.
pub open spec fn spec_coefficient(bytes: Seq<u8>, c: int) -> Seq<u8> {
    Seq::new(32, |j: int| spec_coeff_byte(bytes, c, j))
}

/// All coefficients of a payload.
pub open spec fn spec_coefficients(bytes: Seq<u8>) -> Seq<Seq<u8>> {
    Seq::new(BLOB_WIDTH as nat, |c: int| spec_coefficient(bytes, c))
}

/// Get the `BLOB_WIDTH` scalar field coefficients of a payload, each as a
/// 32-byte big-endian word with a zeroed top byte.
pub fn get_coefficients(blob_bytes: &Vec<u8>) -> (r: Vec<Vec<u8>>)
    requires
        blob_bytes@.len() <= N_BLOB_BYTES,
    ensures
        r.deep_view() == spec_coefficients(blob_bytes@),
        r@.len() == BLOB_WIDTH,
        forall|i: int| 0 <= i < r@.len() ==> (#[trigger] r@[i])@ == spec_coefficient(blob_bytes@, i),
{
    let mut r: Vec<Vec<u8>> = Vec::new();
    let mut c: usize = 0;
    while c < BLOB_WIDTH
        invariant
            0 <= c <= BLOB_WIDTH,
            blob_bytes@.len() <= N_BLOB_BYTES,
            r@.len() == c,
            forall|i: int|
                0 <= i < c ==> (#[trigger] r@[i])@ == spec_coefficient(blob_bytes@, i),
        decreases BLOB_WIDTH - c,
    {
        let mut coeff: Vec<u8> = Vec::new();
        coeff.push(0);
        let mut j: usize = 1;
        while j < 32
            invariant
                1 <= j <= 32,
                0 <= c < BLOB_WIDTH,
                blob_bytes@.len() <= N_BLOB_BYTES,
                coeff@.len() == j,
                forall|t: int| 0 <= t < j ==> coeff@[t] == spec_coeff_byte(blob_bytes@, c as int, t),
            decreases 32 - j,
        {
            let idx = 31 * c + (j - 1);
            if idx < blob_bytes.len() {
                coeff.push(blob_bytes[idx]);
            } else {
                coeff.push(0);
            }
            j = j + 1;
        }
        proof {
            assert(coeff@ =~= spec_coefficient(blob_bytes@, c as int));
        }
        r.push(coeff);
        c = c + 1;
    }
    proof {
        assert forall|i: int| 0 <= i < BLOB_WIDTH implies r.deep_view()[i] == spec_coefficient(
            blob_bytes@,
            i,
        ) by {
            assert(r.deep_view()[i] =~= r@[i]@);
        }
        assert(r.deep_view() =~= spec_coefficients(blob_bytes@));
    }
    r
}

/// The blob as one byte string: the coefficients concatenated in order.
pub open spec fn spec_blob_of(col: Seq<Seq<u8>>) -> Seq<u8>
    decreases col.len(),
{
    if col.len() == 0 {
        Seq::<u8>::empty()
    } else {
        spec_blob_of(col.drop_last()) + col.last()
    }
}

/// Concatenate the coefficients into the blob's byte string.
pub fn coefficients_to_blob(coefficients: &Vec<Vec<u8>>) -> (r: Vec<u8>)
    requires
        coefficients@.len() == BLOB_WIDTH,
        forall|i: int|
            0 <= i < coefficients@.len() ==> (#[trigger] coefficients@[i])@.len() == 32,
    ensures
        r@ == spec_blob_of(coefficients.deep_view()),
        r@.len() == N_BYTES_BLOB_WORDS,
{
    let dv = Ghost(coefficients.deep_view());
    let mut r: Vec<u8> = Vec::new();
    let n = coefficients.len();
    let mut i: usize = 0;
    while i < n
        invariant
            0 <= i <= n,
            n == coefficients@.len(),
            dv@ == coefficients.deep_view(),
            dv@.len() == n,
            forall|k: int| 0 <= k < n ==> (#[trigger] coefficients@[k])@.len() == 32,
            r@ == spec_blob_of(dv@.subrange(0, i as int)),
            r@.len() == 32 * i,
        decreases n - i,
    {
        let mut part = coefficients[i].clone();
        r.append(&mut part);
        proof {
            let pre = dv@.subrange(0, i as int);
            let cur = dv@.subrange(0, i + 1);
            assert(cur.drop_last() =~= pre);
            assert(cur.last() == dv@[i as int]);
            assert(dv@[i as int] =~= coefficients@[i as int]@);
        }
        i = i + 1;
    }
    proof {
        assert(dv@.subrange(0, n as int) =~= dv@);
    }
    r
}

/// Each 32-byte chunk of the assembled blob is the corresponding
/// coefficient.
pub proof fn lemma_blob_chunks(col: Seq<Seq<u8>>)
    requires
        forall|i: int| 0 <= i < col.len() ==> (#[trigger] col[i]).len() == 32,
    ensures
        spec_blob_of(col).len() == 32 * col.len(),
        forall|c: int|
            0 <= c < col.len() ==> #[trigger] spec_blob_of(col).subrange(32 * c, 32 * c + 32)
                == col[c],
    decreases col.len(),
{
    if col.len() > 0 {
        let head = col.drop_last();
        lemma_blob_chunks(head);
        let s = spec_blob_of(col);
        let sh = spec_blob_of(head);
        assert(s == sh + col.last());
        assert forall|c: int| 0 <= c < col.len() implies #[trigger] s.subrange(
            32 * c,
            32 * c + 32,
        ) == col[c] by {
            if c < col.len() - 1 {
                assert(s.subrange(32 * c, 32 * c + 32) =~= sh.subrange(32 * c, 32 * c + 32));
            } else {
                assert(s.subrange(32 * c, 32 * c + 32) =~= col.last());
            }
        }
    }
}

/// Every packed coefficient lies below the commitment curve's scalar
/// modulus: its reserved top byte is zero while the modulus begins higher.
pub proof fn lemma_coefficient_canonical(bytes: Seq<u8>, c: int)
    ensures
        be_val(spec_coefficient(bytes, c)) < be_val(spec_bls_modulus()),
{
    let coeff = spec_coefficient(bytes, c);
    let m = spec_bls_modulus();
    assert(coeff[0] == 0);
    assert(m[0] == 0x73);
    assert(coeff.subrange(0, 0) =~= m.subrange(0, 0));
    crate::word::lemma_be_val_lex(coeff, m, 0);
}

/// The versioned hash of a commitment: its SHA-256 digest with the leading
/// byte overwritten by the fixed version tag.
pub open spec fn spec_versioned_hash(commitment: Seq<u8>) -> Seq<u8> {
    sha256_of(commitment).update(0, VERSIONED_HASH_VERSION_KZG)
}

/// Hash a commitment and tag it: byte 0 of the result is always the fixed
/// version tag, whatever the commitment.
pub fn kzg_to_versioned_hash(commitment: &Vec<u8>) -> (r: Vec<u8>)
    ensures
        r@ == spec_versioned_hash(commitment@),
        r@.len() == 32,
        r@[0] == VERSIONED_HASH_VERSION_KZG,
{
    let mut digest = sha256(commitment);
    digest.set(0, VERSIONED_HASH_VERSION_KZG);
    digest
}

/// The versioned hash derived from a payload: commit to the blob built
/// from the payload's coefficients, then hash and tag the commitment.
pub open spec fn spec_payload_versioned_hash(bytes: Seq<u8>) -> Seq<u8> {
    spec_versioned_hash(kzg_commitment_of(spec_blob_of(spec_coefficients(bytes))))
}

/// Get the versioned hash of a payload's coefficients.
///
/// Succeeds exactly when every coefficient lies in the canonical range
/// the commitment scheme accepts; the coefficients produced by
/// [`get_coefficients`] always do, their reserved top byte being zero.
pub fn get_versioned_hash(coefficients: &Vec<Vec<u8>>) -> (r: Option<Vec<u8>>)
    requires
        coefficients@.len() == BLOB_WIDTH,
        forall|i: int|
            0 <= i < coefficients@.len() ==> (#[trigger] coefficients@[i])@.len() == 32,
    ensures
        r is Some <==> (forall|c: int|
            0 <= c < BLOB_WIDTH ==> be_val(#[trigger] coefficients.deep_view()[c]) < be_val(
                spec_bls_modulus(),
            )),
        r is Some ==> r->0@ == spec_versioned_hash(
            kzg_commitment_of(spec_blob_of(coefficients.deep_view())),
        ),
        r is Some ==> r->0@.len() == 32 && r->0@[0] == VERSIONED_HASH_VERSION_KZG,
{
    let blob = coefficients_to_blob(coefficients);
    proof {
        let dv = coefficients.deep_view();
        let m = be_val(spec_bls_modulus());
        assert(forall|i: int| 0 <= i < dv.len() ==> (#[trigger] dv[i]).len() == 32) by {
            assert forall|i: int| 0 <= i < dv.len() implies (#[trigger] dv[i]).len() == 32 by {
                assert(dv[i] =~= coefficients@[i]@);
            }
        }
        lemma_blob_chunks(dv);
        assert forall|c: int| 0 <= c < 4096 implies #[trigger] blob@.subrange(32 * c, 32 * c + 32)
            == dv[c] by {
            assert(spec_blob_of(dv).subrange(32 * c, 32 * c + 32) == dv[c]);
        }
        assert((forall|c: int|
            0 <= c < 4096 ==> be_val(#[trigger] blob@.subrange(32 * c, 32 * c + 32)) < m) <==> (
        forall|c: int| 0 <= c < BLOB_WIDTH ==> be_val(#[trigger] dv[c]) < m)) by {
            if forall|c: int|
                0 <= c < 4096 ==> be_val(#[trigger] blob@.subrange(32 * c, 32 * c + 32)) < m {
                assert forall|c: int| 0 <= c < BLOB_WIDTH implies be_val(#[trigger] dv[c])
                    < m by {
                    assert(be_val(blob@.subrange(32 * c, 32 * c + 32)) < m);
                }
            }
            if forall|c: int| 0 <= c < BLOB_WIDTH ==> be_val(#[trigger] dv[c]) < m {
                assert forall|c: int| 0 <= c < 4096 implies be_val(
                    #[trigger] blob@.subrange(32 * c, 32 * c + 32),
                ) < m by {
                    assert(be_val(dv[c]) < m);
                }
            }
        }
    }
    match kzg_commit(&blob) {
        Some(commitment) => Some(kzg_to_versioned_hash(&commitment)),
        None => None,
    }
}

/// The challenge digest of a batch: a Fiat-Shamir digest over the batch's
/// structural metadata and the versioned hash of its payload.
pub open spec fn spec_challenge_digest(metadata: Seq<u8>, versioned_hash: Seq<u8>) -> Seq<u8> {
    keccak_of(metadata + versioned_hash)
}

/// Derive the challenge digest from the batch metadata and versioned hash.
pub fn challenge_digest(metadata: &Vec<u8>, versioned_hash: &Vec<u8>) -> (r: Vec<u8>)
    ensures
        r@ == spec_challenge_digest(metadata@, versioned_hash@),
        r@.len() == 32,
{
    let mut preimage: Vec<u8> = Vec::new();
    let mut m = metadata.clone();
    let mut v = versioned_hash.clone();
    preimage.append(&mut m);
    preimage.append(&mut v);
    keccak256(&preimage)
}

/// Reduce a 32-byte digest into the commitment curve's scalar field: the
/// challenge point at which the blob polynomial is evaluated.
pub fn scalar_from_digest(digest: &Vec<u8>) -> (r: Vec<u8>)
    requires
        digest@.len() == 32,
    ensures
        r@.len() == 32,
        be_val(r@) == be_val(digest@) % be_val(spec_bls_modulus()),
        be_val(r@) < be_val(spec_bls_modulus()),
{
    proof {
        lemma_bls_modulus_wf();
    }
    let modulus = bls_modulus();
    let r = be_reduce(digest, &modulus);
    proof {
        vstd::arithmetic::div_mod::lemma_mod_bound(
            be_val(digest@) as int,
            be_val(spec_bls_modulus()) as int,
        );
    }
    r
}

/// The witness binding off-chain batch bytes to the on-chain commitment:
/// the versioned hash addressing the blob, the challenge digest, and the
/// blob polynomial's evaluation at the reduced challenge point.
pub struct BlobConsistencyWitness {
    pub blob_versioned_hash: Vec<u8>,
    pub challenge_digest: Vec<u8>,
    pub evaluation: Vec<u8>,
}

/// What it means for a witness to be derived from a payload, metadata, and
/// an externally computed evaluation: each field equals the corresponding
/// pure function of those inputs.
pub open spec fn witness_derived(
    w: BlobConsistencyWitness,
    bytes: Seq<u8>,
    metadata: Seq<u8>,
    evaluation: Seq<u8>,
) -> bool {
    &&& w.blob_versioned_hash@ == spec_payload_versioned_hash(bytes)
    &&& w.challenge_digest@ == spec_challenge_digest(metadata, spec_payload_versioned_hash(bytes))
    &&& w.evaluation@ == evaluation
}

impl BlobConsistencyWitness {
    /// Basic shape of the witness.
    pub open spec fn wf(self) -> bool {
        &&& self.blob_versioned_hash@.len() == 32
        &&& self.challenge_digest@.len() == 32
        &&& self.evaluation@.len() == 32
    }

    /// Build the witness for a payload.
    ///
    /// The evaluation of the blob polynomial at the challenge point is
    /// computed by the external circuit witness generator and passed in;
    /// everything else is derived here.  Always succeeds: every packed
    /// coefficient has a zeroed top byte and so lies in the canonical
    /// range the commitment scheme accepts.
    pub fn new(bytes: &Vec<u8>, metadata: &Vec<u8>, evaluation: &Vec<u8>) -> (r:
        BlobConsistencyWitness)
        requires
            bytes@.len() <= N_BLOB_BYTES,
            evaluation@.len() == 32,
        ensures
            witness_derived(r, bytes@, metadata@, evaluation@),
            r.wf(),
    {
        let coefficients = get_coefficients(bytes);
        proof {
            assert forall|c: int| 0 <= c < BLOB_WIDTH implies be_val(
                #[trigger] coefficients.deep_view()[c],
            ) < be_val(spec_bls_modulus()) by {
                lemma_coefficient_canonical(bytes@, c);
            }
        }
        let versioned_hash = match get_versioned_hash(&coefficients) {
            Some(h) => h,
            None => {
                proof {
                    assert(false);
                }
                vstd::pervasive::unreached()
            },
        };
        let digest = challenge_digest(metadata, &versioned_hash);
        BlobConsistencyWitness {
            blob_versioned_hash: versioned_hash,
            challenge_digest: digest,
            evaluation: evaluation.clone(),
        }
    }

    /// The versioned hash identifying the blob on-chain.
    pub fn id(&self) -> (r: &Vec<u8>)
        ensures
            r@ == self.blob_versioned_hash@,
    {
        &self.blob_versioned_hash
    }

    /// The raw challenge digest, as a big-endian word.
    pub fn challenge_digest(&self) -> (r: Vec<u8>)
        ensures
            r@ == self.challenge_digest@,
    {
        self.challenge_digest.clone()
    }

    /// The challenge point: the digest reduced into the scalar field.
    pub fn challenge(&self) -> (r: Vec<u8>)
        requires
            self.wf(),
        ensures
            r@.len() == 32,
            be_val(r@) == be_val(self.challenge_digest@) % be_val(spec_bls_modulus()),
    {
        scalar_from_digest(&self.challenge_digest)
    }

    /// The blob polynomial's evaluation at the challenge point, as a
    /// big-endian word.
    pub fn evaluation(&self) -> (r: Vec<u8>)
        ensures
            r@ == self.evaluation@,
    {
        self.evaluation.clone()
    }

    /// The two-word proof pair embedded as public inputs: the reduced
    /// challenge and the evaluation, each as a 32-byte big-endian word.
    pub fn blob_data_proof(&self) -> (r: (Vec<u8>, Vec<u8>))
        requires
            self.wf(),
        ensures
            r.0@.len() == 32,
            be_val(r.0@) == be_val(self.challenge_digest@) % be_val(spec_bls_modulus()),
            r.1@ == self.evaluation@,
    {
        (self.challenge(), self.evaluation.clone())
    }
}

/// The reduced challenge point is determined by the digest: any two
/// 32-byte words that both carry the digest's remainder are the same
/// bytes, so re-deriving the challenge reproduces it exactly.
pub proof fn lemma_challenge_determined(digest: Seq<u8>, r1: Seq<u8>, r2: Seq<u8>)
    requires
        r1.len() == 32,
        r2.len() == 32,
        be_val(r1) == be_val(digest) % be_val(spec_bls_modulus()),
        be_val(r2) == be_val(digest) % be_val(spec_bls_modulus()),
    ensures
        r1 == r2,
{
    crate::word::lemma_be_val_injective(r1, r2);
}

/// Determinism of the blob consistency witness: two witnesses derived from
/// the same payload, the same metadata and the same evaluation are equal in
/// every part.
pub proof fn lemma_witness_deterministic(
    w1: BlobConsistencyWitness,
    w2: BlobConsistencyWitness,
    bytes: Seq<u8>,
    metadata: Seq<u8>,
    evaluation: Seq<u8>,
)
    requires
        witness_derived(w1, bytes, metadata, evaluation),
        witness_derived(w2, bytes, metadata, evaluation),
    ensures
        w1.blob_versioned_hash@ == w2.blob_versioned_hash@,
        w1.challenge_digest@ == w2.challenge_digest@,
        w1.evaluation@ == w2.evaluation@,
{
}

/// Prepend the encoding flag: the payload is carried compressed when the
/// encoded form is strictly smaller, and raw otherwise, with the first
/// byte of the result saying which.
pub fn get_blob_bytes(batch_bytes: &Vec<u8>, encoded_bytes: &Vec<u8>) -> (r: Vec<u8>)
    ensures
        encoded_bytes@.len() < batch_bytes@.len() ==> r@ == seq![1u8] + encoded_bytes@,
        encoded_bytes@.len() >= batch_bytes@.len() ==> r@ == seq![0u8] + batch_bytes@,
{
    let mut r: Vec<u8> = Vec::new();
    let enable_encoding = encoded_bytes.len() < batch_bytes.len();
    if enable_encoding {
        r.push(1);
        let mut body = encoded_bytes.clone();
        r.append(&mut body);
        proof {
            assert(r@ =~= seq![1u8] + encoded_bytes@);
        }
    } else {
        r.push(0);
        let mut body = batch_bytes.clone();
        r.append(&mut body);
        proof {
            assert(r@ =~= seq![0u8] + batch_bytes@);
        }
    }
    r
}

} // verus!
