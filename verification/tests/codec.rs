//! Round trips and rejection cases of the instance byte codec.

use rollup_prover::snark::{
    deserialize_fr, deserialize_fr_matrix, deserialize_fr_vec, deserialize_instances,
    serialize_fr, serialize_fr_matrix, serialize_fr_vec, serialize_instance, serialize_instances,
    Fr,
};

fn fr_from_u64(x: u64) -> Fr {
    let mut bytes = vec![0u8; 32];
    bytes[..8].copy_from_slice(&x.to_le_bytes());
    Fr { bytes }
}

#[test]
fn serialize_fr_keeps_canonical_bytes() {
    let f = fr_from_u64(0xdead_beef);
    let bytes = serialize_fr(&f);
    assert_eq!(bytes, f.bytes);
}

#[test]
fn deserialize_fr_accepts_canonical() {
    let f = fr_from_u64(7);
    let back = deserialize_fr(f.bytes.clone()).expect("canonical element");
    assert_eq!(back.bytes, f.bytes);
}

#[test]
fn deserialize_fr_rejects_wrong_length() {
    assert!(deserialize_fr(vec![0u8; 31]).is_none());
    assert!(deserialize_fr(vec![0u8; 33]).is_none());
}

#[test]
fn deserialize_fr_rejects_non_canonical() {
    // The field modulus itself, little-endian: not a canonical element.
    let mut modulus_be = vec![
        0x30u8, 0x64, 0x4e, 0x72, 0xe1, 0x31, 0xa0, 0x29, 0xb8, 0x50, 0x45, 0xb6, 0x81, 0x81,
        0x58, 0x5d, 0x28, 0x33, 0xe8, 0x48, 0x79, 0xb9, 0x70, 0x91, 0x43, 0xe1, 0xf5, 0x93, 0xf0,
        0x00, 0x00, 0x01,
    ];
    modulus_be.reverse();
    assert!(deserialize_fr(modulus_be).is_none());
    // All bytes 0xff is far past the modulus.
    assert!(deserialize_fr(vec![0xffu8; 32]).is_none());
}

#[test]
fn instance_bytes_are_big_endian_concatenation() {
    let column = vec![fr_from_u64(1), fr_from_u64(0x0102)];
    let bytes = serialize_instance(&column);
    assert_eq!(bytes.len(), 64);
    // Element 0: value 1, big-endian: 31 zero bytes then 0x01.
    assert_eq!(&bytes[..31], &[0u8; 31]);
    assert_eq!(bytes[31], 1);
    // Element 1: value 0x0102, big-endian tail 0x01 0x02.
    assert_eq!(&bytes[32..62], &[0u8; 30]);
    assert_eq!(bytes[62], 0x01);
    assert_eq!(bytes[63], 0x02);
}

#[test]
fn instances_round_trip() {
    let column = vec![fr_from_u64(42), fr_from_u64(u64::MAX), fr_from_u64(0)];
    let instances = vec![column.clone()];
    let bytes = serialize_instances(&instances);
    assert_eq!(bytes.len() % 32, 0);
    let back = deserialize_instances(&bytes).expect("round trip decodes");
    assert_eq!(back.len(), column.len());
    for (a, b) in back.iter().zip(column.iter()) {
        assert_eq!(a.bytes, b.bytes);
    }
    // And re-encoding reproduces the bytes exactly.
    let again = serialize_instance(&back);
    assert_eq!(again, bytes);
}

#[test]
fn deserialize_instances_rejects_ragged_or_non_canonical() {
    assert!(deserialize_instances(&vec![0u8; 31]).is_none());
    assert!(deserialize_instances(&vec![0xffu8; 32]).is_none());
    assert!(deserialize_instances(&vec![0u8; 32]).is_some());
}

#[test]
fn fr_vec_and_matrix_round_trip() {
    let v = vec![fr_from_u64(3), fr_from_u64(4)];
    let buffers = serialize_fr_vec(&v);
    assert_eq!(buffers.len(), 2);
    let back = deserialize_fr_vec(buffers).expect("canonical");
    assert_eq!(back.len(), 2);
    assert_eq!(back[0].bytes, v[0].bytes);

    let m = vec![vec![fr_from_u64(5)], vec![fr_from_u64(6), fr_from_u64(7)]];
    let nested = serialize_fr_matrix(&m);
    let back = deserialize_fr_matrix(nested).expect("canonical");
    assert_eq!(back.len(), 2);
    assert_eq!(back[1][1].bytes, m[1][1].bytes);
}
