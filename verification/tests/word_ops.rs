//! Big-endian word arithmetic.

use rollup_prover::word::{be_lt, be_reduce, be_sub, bls_modulus, bn254_modulus, reverse_bytes};

#[test]
fn comparison_is_numeric() {
    let small = vec![0u8, 0, 1];
    let big = vec![0u8, 1, 0];
    assert!(be_lt(&small, &big));
    assert!(!be_lt(&big, &small));
    assert!(!be_lt(&big, &big));
}

#[test]
fn subtraction_borrows_across_bytes() {
    let a = vec![1u8, 0, 0];
    let b = vec![0u8, 0, 1];
    assert_eq!(be_sub(&a, &b), vec![0, 0xff, 0xff]);
    assert_eq!(be_sub(&a, &a), vec![0, 0, 0]);
}

#[test]
fn reduction_is_the_remainder() {
    let m = vec![0u8, 0, 7];
    let x = vec![0u8, 1, 2];  // 258 = 36 * 7 + 6
    assert_eq!(be_reduce(&x, &m), vec![0, 0, 6]);
    let below = vec![0u8, 0, 5];
    assert_eq!(be_reduce(&below, &m), below);
}

#[test]
fn reversal_mirrors_the_bytes() {
    let v = vec![1u8, 2, 3, 4];
    assert_eq!(reverse_bytes(&v), vec![4, 3, 2, 1]);
    assert_eq!(reverse_bytes(&reverse_bytes(&v)), v);
}

#[test]
fn the_moduli_have_their_known_bytes() {
    let bls = bls_modulus();
    assert_eq!(bls.len(), 32);
    assert_eq!(
        bls,
        hex::decode("73eda753299d7d483339d80809a1d80553bda402fffe5bfeffffffff00000001").unwrap()
    );
    let bn = bn254_modulus();
    assert_eq!(
        bn,
        hex::decode("30644e72e131a029b85045b68181585d2833e84879b9709143e1f593f0000001").unwrap()
    );
}
