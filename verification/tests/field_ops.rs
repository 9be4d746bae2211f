//! Scalar-field arithmetic against `ark_ff`'s own results.

use ark_ff::{BigInteger256, Field, FpParameters, PrimeField, Zero};
use ark_bls12_381::Fr;
use plonk_core::field::{
    scalar_add, scalar_batch_inversion, scalar_from_u64, scalar_inverse, scalar_is_zero,
    scalar_mul, scalar_neg, scalar_one, scalar_pow, scalar_sub, scalar_zero,
    scalar_from_le_bytes_mod_order, limbs_are_canonical, Scalar,
};

fn to_scalar(x: Fr) -> Scalar {
    let l = x.into_repr().0;
    Scalar { l0: l[0], l1: l[1], l2: l[2], l3: l[3] }
}

fn to_fr(s: &Scalar) -> Fr {
    Fr::from_repr(BigInteger256::new([s.l0, s.l1, s.l2, s.l3])).unwrap()
}

#[test]
fn add_sub_mul_neg_match_ark() {
    let a = Fr::from(123456789u64);
    let b = Fr::from(987654321u64);
    let sa = to_scalar(a);
    let sb = to_scalar(b);
    assert_eq!(scalar_add(&sa, &sb), to_scalar(a + b));
    assert_eq!(scalar_sub(&sa, &sb), to_scalar(a - b));
    assert_eq!(scalar_mul(&sa, &sb), to_scalar(a * b));
    assert_eq!(scalar_neg(&sa), to_scalar(-a));
}

#[test]
fn constants_and_embedding() {
    assert_eq!(scalar_zero(), to_scalar(Fr::from(0u64)));
    assert_eq!(scalar_one(), to_scalar(Fr::from(1u64)));
    assert_eq!(scalar_from_u64(42), to_scalar(Fr::from(42u64)));
    assert!(scalar_is_zero(&scalar_zero()));
    assert!(!scalar_is_zero(&scalar_one()));
}

#[test]
fn pow_matches_ark() {
    let b = Fr::from(3u64);
    let sb = to_scalar(b);
    for e in [0u64, 1, 2, 5, 17, 64, 1023] {
        assert_eq!(scalar_pow(&sb, e), to_scalar(b.pow([e])));
    }
}

#[test]
fn inverse_matches_ark() {
    let a = Fr::from(123456789u64);
    let inv = scalar_inverse(&to_scalar(a)).unwrap();
    assert_eq!(inv, to_scalar(a.inverse().unwrap()));
    assert!(scalar_inverse(&scalar_zero()).is_none());
}

#[test]
fn batch_inversion_inverts_nonzero_and_keeps_zero() {
    let values = vec![
        Fr::from(5u64),
        Fr::from(0u64),
        Fr::from(7u64),
        Fr::from(11u64),
        Fr::from(0u64),
    ];
    let mut v: Vec<Scalar> = values.iter().map(|x| to_scalar(*x)).collect();
    scalar_batch_inversion(&mut v);
    for (i, x) in values.iter().enumerate() {
        if x.is_zero() {
            assert_eq!(v[i], scalar_zero());
        } else {
            assert_eq!(v[i], to_scalar(x.inverse().unwrap()));
        }
    }
}

#[test]
fn from_le_bytes_reduces_mod_order() {
    let bytes: Vec<u8> = (0u8..64u8).collect();
    let s = scalar_from_le_bytes_mod_order(&bytes);
    assert_eq!(s, to_scalar(Fr::from_le_bytes_mod_order(&bytes)));
}

#[test]
fn canonical_limb_check() {
    // The modulus itself is not canonical; the modulus minus one is.
    let m = <ark_bls12_381::FrParameters as FpParameters>::MODULUS;
    assert!(!limbs_are_canonical(m.0[0], m.0[1], m.0[2], m.0[3]));
    assert!(limbs_are_canonical(m.0[0] - 1, m.0[1], m.0[2], m.0[3]));
    assert!(limbs_are_canonical(7, 0, 0, 0));
}
