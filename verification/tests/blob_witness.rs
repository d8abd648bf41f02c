//! The blob consistency subsystem against the real hash and commitment
//! primitives: known digests, the versioned hash tag, and determinism.

use rollup_prover::blob::{
    challenge_digest, coefficients_to_blob, get_blob_bytes, get_coefficients, get_versioned_hash,
    kzg_to_versioned_hash, scalar_from_digest, BlobConsistencyWitness, BLOB_WIDTH, N_BLOB_BYTES,
    VERSIONED_HASH_VERSION_KZG,
};
use rollup_prover::hashing::kzg_commit;

#[test]
fn coefficients_pack_31_bytes_per_word() {
    let payload: Vec<u8> = (0u8..=63).collect();
    let coefficients = get_coefficients(&payload);
    assert_eq!(coefficients.len(), BLOB_WIDTH);
    // Every coefficient's top byte is reserved and zero.
    for coeff in &coefficients {
        assert_eq!(coeff.len(), 32);
        assert_eq!(coeff[0], 0);
    }
    // Byte i of the payload lands at coefficient i / 31, position 1 + i % 31.
    assert_eq!(coefficients[0][1], 0);
    assert_eq!(coefficients[0][31], 30);
    assert_eq!(coefficients[1][1], 31);
    assert_eq!(coefficients[2][2], 63);
    // Past the payload everything is zero.
    assert_eq!(coefficients[2][3], 0);
    assert_eq!(coefficients[4095], vec![0u8; 32]);
}

#[test]
fn zero_blob_commits_to_the_identity_point() {
    let coefficients = get_coefficients(&Vec::new());
    let blob = coefficients_to_blob(&coefficients);
    assert_eq!(blob.len(), 131072);
    let commitment = kzg_commit(&blob).expect("zero blob is canonical");
    // The commitment to the zero polynomial is the compressed identity
    // point: 0xc0 followed by 47 zero bytes.
    let mut expected = vec![0u8; 48];
    expected[0] = 0xc0;
    assert_eq!(commitment, expected);
}

#[test]
fn versioned_hash_is_tagged_sha256() {
    // SHA-256 of the empty string, with byte 0 overwritten by the tag.
    let mut expected =
        hex::decode("e3b0c44298fc1c149afbf4c8996fb92427ae41e4649b934ca495991b7852b855").unwrap();
    expected[0] = VERSIONED_HASH_VERSION_KZG;
    assert_eq!(kzg_to_versioned_hash(&Vec::new()), expected);
}

#[test]
fn versioned_hash_tag_is_fixed() {
    for commitment in [vec![], vec![0xc0u8], vec![7u8; 48]] {
        let hash = kzg_to_versioned_hash(&commitment);
        assert_eq!(hash[0], VERSIONED_HASH_VERSION_KZG);
        assert_eq!(hash.len(), 32);
    }
    let coefficients = get_coefficients(&vec![0xabu8; 100]);
    let hash = get_versioned_hash(&coefficients).expect("commitment succeeds");
    assert_eq!(hash[0], VERSIONED_HASH_VERSION_KZG);
}

#[test]
fn challenge_digest_is_keccak_of_metadata_and_hash() {
    // Keccak-256 of the empty string.
    let expected =
        hex::decode("c5d2460186f7233c927e7db2dcc703c0e500b653ca82273b7bfad8045d85a470").unwrap();
    assert_eq!(challenge_digest(&Vec::new(), &Vec::new()), expected);
    // A non-empty preimage gives a different digest.
    assert_ne!(challenge_digest(&vec![1u8], &Vec::new()), expected);
}

#[test]
fn challenge_reduction_stays_below_the_modulus() {
    // The all-0xff digest is far above the modulus; its reduction is the
    // exact remainder.
    let digest = vec![0xffu8; 32];
    let reduced = scalar_from_digest(&digest);
    assert_eq!(reduced.len(), 32);
    assert!(reduced.as_slice() < digest.as_slice());
    // 2^256 - 1 mod the commitment curve's scalar field modulus.
    let expected =
        hex::decode("1824b159acc5056f998c4fefecbc4ff55884b7fa0003480200000001fffffffd").unwrap();
    assert_eq!(reduced, expected);
    // A digest already below the modulus is unchanged.
    let small = vec![1u8; 32];
    assert_eq!(scalar_from_digest(&small), small);
}

#[test]
fn witness_is_deterministic() {
    let payload = vec![0x42u8; 500];
    let metadata = vec![9u8, 8, 7];
    let evaluation = vec![3u8; 32];
    let w1 = BlobConsistencyWitness::new(&payload, &metadata, &evaluation);
    let w2 = BlobConsistencyWitness::new(&payload, &metadata, &evaluation);
    assert_eq!(w1.id(), w2.id());
    assert_eq!(w1.challenge_digest(), w2.challenge_digest());
    assert_eq!(w1.challenge(), w2.challenge());
    assert_eq!(w1.evaluation(), w2.evaluation());
    let (c1, e1) = w1.blob_data_proof();
    let (c2, e2) = w2.blob_data_proof();
    assert_eq!(c1, c2);
    assert_eq!(e1, e2);
    // A different payload changes the versioned hash.
    let other = BlobConsistencyWitness::new(&vec![0x43u8; 500], &metadata, &evaluation);
    assert_ne!(w1.id(), other.id());
}

#[test]
fn blob_bytes_flag_says_whether_encoding_was_used() {
    let batch = vec![1u8, 2, 3, 4, 5];
    let smaller = vec![9u8, 9];
    let r = get_blob_bytes(&batch, &smaller);
    assert_eq!(r, vec![1, 9, 9]);
    let not_smaller = vec![9u8; 5];
    let r = get_blob_bytes(&batch, &not_smaller);
    assert_eq!(r, vec![0, 1, 2, 3, 4, 5]);
    assert!(N_BLOB_BYTES == 126976);
}
