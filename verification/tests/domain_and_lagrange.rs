//! Domains, the vanishing polynomial, the first-Lagrange closed form, and
//! the barycentric evaluation, checked against direct `ark_poly` evaluation.

use ark_ff::{BigInteger256, Field, PrimeField, UniformRand};
use ark_bls12_381::Fr;
use ark_poly::{
    univariate::DensePolynomial, EvaluationDomain, Polynomial, Radix2EvaluationDomain,
    UVPolynomial,
};
use plonk_core::domain::{
    domain_element, evaluate_vanishing_polynomial, new_domain, Domain, TWO_ADICITY,
};
use plonk_core::field::Scalar;
use plonk_core::proof_system::{compute_barycentric_eval, compute_first_lagrange_evaluation};
use plonk_core::Error;

fn to_scalar(x: Fr) -> Scalar {
    let l = x.into_repr().0;
    Scalar { l0: l[0], l1: l[1], l2: l[2], l3: l[3] }
}

fn to_fr(s: &Scalar) -> Fr {
    Fr::from_repr(BigInteger256::new([s.l0, s.l1, s.l2, s.l3])).unwrap()
}

#[test]
fn domain_matches_ark() {
    for n in [1usize, 2, 4, 8, 200, 256] {
        let d = new_domain(n).unwrap();
        let ark = Radix2EvaluationDomain::<Fr>::new(n).unwrap();
        assert_eq!(d.size, ark.size);
        assert_eq!(to_fr(&d.group_gen), ark.group_gen);
        assert_eq!(to_fr(&d.group_gen_inv), ark.group_gen_inv);
        assert_eq!(to_fr(&d.size_inv), ark.size_inv);
    }
}

#[test]
fn oversized_domain_is_rejected() {
    // One past the largest representable power of two: 2^32 + 1 rounds up to
    // 2^33, beyond the field's two-adicity.
    let n: usize = (1usize << 32) + 1;
    match new_domain(n) {
        Err(Error::InvalidEvalDomainSize { adicity, .. }) => assert_eq!(adicity, TWO_ADICITY),
        other => panic!("expected InvalidEvalDomainSize, got {:?}", other),
    }
    assert!(new_domain(1usize << 32).is_ok());
}

#[test]
fn vanishing_polynomial_matches_ark() {
    let d = new_domain(8).unwrap();
    let ark = Radix2EvaluationDomain::<Fr>::new(8).unwrap();
    let mut rng = ark_std::test_rng();
    for _ in 0..5 {
        let z = Fr::rand(&mut rng);
        let ours = evaluate_vanishing_polynomial(&d, &to_scalar(z));
        assert_eq!(to_fr(&ours), ark.evaluate_vanishing_polynomial(z));
    }
    let e = domain_element(&d, 3);
    assert_eq!(to_fr(&e), ark.element(3));
}

#[test]
fn first_lagrange_closed_form_matches_interpolation() {
    // L1 is the degree n-1 polynomial with L1(1) = 1 and L1(g^i) = 0: the
    // closed form Z_H(z) / (n (z - 1)) must equal its direct evaluation.
    let mut rng = ark_std::test_rng();
    for n in [4usize, 8, 32] {
        let d = new_domain(n).unwrap();
        let ark = Radix2EvaluationDomain::<Fr>::new(n).unwrap();
        let mut evals = vec![Fr::from(0u64); n];
        evals[0] = Fr::from(1u64);
        let l1_poly = DensePolynomial::from_coefficients_vec(ark.ifft(&evals));
        for _ in 0..5 {
            let z = Fr::rand(&mut rng);
            let zh = evaluate_vanishing_polynomial(&d, &to_scalar(z));
            let ours = compute_first_lagrange_evaluation(&d, &zh, &to_scalar(z)).unwrap();
            assert_eq!(to_fr(&ours), l1_poly.evaluate(&z));
        }
    }
}

#[test]
fn first_lagrange_rejects_degenerate_point() {
    let d = new_domain(8).unwrap();
    let one = to_scalar(Fr::from(1u64));
    let zh = evaluate_vanishing_polynomial(&d, &one);
    assert!(compute_first_lagrange_evaluation(&d, &zh, &one).is_none());
}

#[test]
fn barycentric_matches_dense_interpolation() {
    // A vector with mixed zero and non-zero entries: the skip-zero
    // barycentric evaluation must equal evaluating the interpolated
    // polynomial directly.
    let n = 8usize;
    let d = new_domain(n).unwrap();
    let ark = Radix2EvaluationDomain::<Fr>::new(n).unwrap();
    let values = vec![
        Fr::from(0u64),
        Fr::from(3u64),
        Fr::from(0u64),
        Fr::from(0u64),
        Fr::from(9u64),
        Fr::from(0u64),
        Fr::from(27u64),
        Fr::from(0u64),
    ];
    let poly = DensePolynomial::from_coefficients_vec(ark.ifft(&values));
    let scalars: Vec<Scalar> = values.iter().map(|x| to_scalar(*x)).collect();
    let mut rng = ark_std::test_rng();
    for _ in 0..5 {
        let z = Fr::rand(&mut rng);
        let ours = compute_barycentric_eval(&scalars, &to_scalar(z), &d);
        assert_eq!(to_fr(&ours), poly.evaluate(&z));
    }
}

#[test]
fn barycentric_sparse_equals_fully_dense_vector() {
    // The same polynomial presented once with its zeros stored and once with
    // every coordinate non-zero must evaluate identically when both are the
    // same vector; and an all-zero vector evaluates to zero.
    let n = 4usize;
    let d = new_domain(n).unwrap();
    let zeros = vec![to_scalar(Fr::from(0u64)); n];
    let mut rng = ark_std::test_rng();
    let z = Fr::rand(&mut rng);
    let r = compute_barycentric_eval(&zeros, &to_scalar(z), &d);
    assert_eq!(to_fr(&r), Fr::from(0u64));
}
