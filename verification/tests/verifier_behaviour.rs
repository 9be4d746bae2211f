//! Verifier behaviour: domain-size rejection, clean rejection of proofs
//! that open nothing, and the quotient-chunk scalars.

use ark_ec::{AffineCurve, ProjectiveCurve};
use vstd::prelude::*;
use ark_ff::{BigInteger256, Field, One, PrimeField};
use ark_bls12_381::{Bls12_381, Fr, G1Affine};
use ark_poly::univariate::DensePolynomial;
use ark_poly_commit::PolynomialCommitment;
use ark_poly_commit::sonic_pc::SonicKZG10;
use plonk_core::commitment::{Commitment, OpeningProof, SchemeVerifierKey};
use plonk_core::field::Scalar;
use plonk_core::proof_system::{quotient_term_scalars, Proof};
use plonk_core::widget::{
    ArithmeticLineariser, CustomEvaluations, CustomVals, GateConstraint, PermutationLineariser,
    PlonkVerifierKey, ProofEvaluations, WireEvaluations, PermutationEvaluations, WitnessVals,
    WitnessValues,
};
use plonk_core::Error;

type Scheme = SonicKZG10<Bls12_381, DensePolynomial<Fr>>;

fn to_scalar(x: Fr) -> Scalar {
    let l = x.into_repr().0;
    Scalar { l0: l[0], l1: l[1], l2: l[2], l3: l[3] }
}

fn to_fr(s: &Scalar) -> Fr {
    Fr::from_repr(BigInteger256::new([s.l0, s.l1, s.l2, s.l3])).unwrap()
}

fn point(k: u64) -> Commitment {
    let g = G1Affine::prime_subgroup_generator();
    Commitment { inner: g.mul(Fr::from(k)).into_affine() }
}

struct NullGate;

impl GateConstraint for NullGate {
    fn lin_scalars(_: Commitment, _: nat, _: ProofEvaluations) -> Seq<nat> {
        unreachable!()
    }

    fn lin_points(_: Commitment, _: nat, _: ProofEvaluations) -> Seq<Commitment> {
        unreachable!()
    }

    fn lemma_inactive(_: nat, _: WitnessVals, _: CustomVals) {
    }

    fn term_spec(_: nat, _: nat, _: WitnessVals, _: CustomVals) -> nat {
        unreachable!()
    }

    fn quotient_term(
        _selector: &Scalar,
        _separation_challenge: &Scalar,
        _wit: &WitnessValues,
        _custom: &CustomEvaluations,
    ) -> Scalar {
        to_scalar(Fr::from(0u64))
    }

    fn extend_linearisation_commitment(
        _selector_commitment: &Commitment,
        _separation_challenge: &Scalar,
        _evaluations: &ProofEvaluations,
        _scalars: &mut Vec<Scalar>,
        _points: &mut Vec<Commitment>,
    ) {
    }
}

struct NullArith;

impl ArithmeticLineariser for NullArith {
    fn lin_scalars(&self, _: ProofEvaluations) -> Seq<nat> {
        unreachable!()
    }

    fn lin_points(&self, _: ProofEvaluations) -> Seq<Commitment> {
        unreachable!()
    }

    fn compute_linearisation_commitment(
        &self,
        _scalars: &mut Vec<Scalar>,
        _points: &mut Vec<Commitment>,
        _evaluations: &ProofEvaluations,
    ) {
    }
}

struct NullPerm;

impl PermutationLineariser for NullPerm {
    fn lin_scalars(
        &self,
        _: ProofEvaluations,
        _: nat,
        _: nat,
        _: nat,
        _: nat,
        _: nat,
        _: Commitment,
    ) -> Seq<nat> {
        unreachable!()
    }

    fn lin_points(
        &self,
        _: ProofEvaluations,
        _: nat,
        _: nat,
        _: nat,
        _: nat,
        _: nat,
        _: Commitment,
    ) -> Seq<Commitment> {
        unreachable!()
    }

    fn compute_linearisation_commitment(
        &self,
        _scalars: &mut Vec<Scalar>,
        _points: &mut Vec<Commitment>,
        _evaluations: &ProofEvaluations,
        _z_challenge: &Scalar,
        _alpha: &Scalar,
        _beta: &Scalar,
        _gamma: &Scalar,
        _l1_eval: &Scalar,
        _z_comm: &Commitment,
    ) {
    }
}

fn sample_proof() -> Proof {
    let s = |k: u64| to_scalar(Fr::from(k));
    Proof {
        a_comm: point(2),
        b_comm: point(3),
        c_comm: point(5),
        d_comm: point(7),
        z_comm: point(11),
        t_1_comm: point(13),
        t_2_comm: point(17),
        t_3_comm: point(19),
        t_4_comm: point(23),
        aw_opening: OpeningProof { w: point(29), random_v: None },
        saw_opening: OpeningProof { w: point(37), random_v: None },
        evaluations: ProofEvaluations {
            wire_evals: WireEvaluations {
                a_eval: s(41),
                b_eval: s(43),
                c_eval: s(47),
                d_eval: s(53),
            },
            perm_evals: PermutationEvaluations {
                left_sigma_eval: s(59),
                right_sigma_eval: s(61),
                out_sigma_eval: s(67),
                permutation_eval: s(71),
            },
            custom_evals: CustomEvaluations {
                a_next_eval: s(73),
                b_next_eval: s(79),
                d_next_eval: s(83),
                q_l_eval: s(89),
                q_r_eval: s(97),
                q_c_eval: s(101),
            },
        },
    }
}

fn plonk_vk(n: usize) -> PlonkVerifierKey<NullArith, NullPerm> {
    PlonkVerifierKey {
        n,
        arithmetic: NullArith,
        range_selector_commitment: point(101),
        logic_selector_commitment: point(103),
        fixed_group_add_selector_commitment: point(107),
        variable_group_add_selector_commitment: point(109),
        left_sigma_commitment: point(113),
        right_sigma_commitment: point(127),
        out_sigma_commitment: point(131),
        permutation: NullPerm,
    }
}

fn scheme_vk() -> SchemeVerifierKey {
    let mut rng = ark_std::test_rng();
    let pp = Scheme::setup(32, None, &mut rng).unwrap();
    let (_ck, vk) = Scheme::trim(&pp, 32, 0, None).unwrap();
    SchemeVerifierKey { inner: vk }
}

#[test]
fn verify_rejects_a_proof_that_opens_nothing() {
    let proof = sample_proof();
    let vk = scheme_vk();
    let mut transcript = plonk_core::transcript::transcript_new("plonk");
    let r = proof.verify::<NullArith, NullPerm, NullGate, NullGate, NullGate, NullGate>(
        &plonk_vk(8),
        &mut transcript,
        &vk,
        &Vec::new(),
    );
    assert_eq!(r, Err(Error::ProofVerificationError));
}

#[test]
fn verify_reports_oversized_domain() {
    let proof = sample_proof();
    let vk = scheme_vk();
    let mut transcript = plonk_core::transcript::transcript_new("plonk");
    let r = proof.verify::<NullArith, NullPerm, NullGate, NullGate, NullGate, NullGate>(
        &plonk_vk((1usize << 32) + 1),
        &mut transcript,
        &vk,
        &Vec::new(),
    );
    match r {
        Err(Error::InvalidEvalDomainSize { adicity, .. }) => assert_eq!(adicity, 32),
        other => panic!("expected InvalidEvalDomainSize, got {:?}", other),
    }
}

#[test]
fn r0_matches_the_hand_formula() {
    // With no public inputs, r0 is minus the product of the four
    // copy-constraint numerator factors minus L1(z) alpha^2.
    let proof = sample_proof();
    let d = plonk_core::domain::new_domain(8).unwrap();
    let e = &proof.evaluations;
    let (alpha, beta, gamma) = (Fr::from(3u64), Fr::from(5u64), Fr::from(7u64));
    let (z, l1, z_hat) = (Fr::from(11u64), Fr::from(13u64), to_fr(&e.perm_evals.permutation_eval));
    let r0 = proof.compute_r0(
        &d,
        &Vec::new(),
        &to_scalar(alpha),
        &to_scalar(beta),
        &to_scalar(gamma),
        &to_scalar(z),
        &to_scalar(l1),
        &to_scalar(z_hat),
    );
    let b = (to_fr(&e.wire_evals.a_eval) + beta * to_fr(&e.perm_evals.left_sigma_eval) + gamma)
        * (to_fr(&e.wire_evals.b_eval) + beta * to_fr(&e.perm_evals.right_sigma_eval) + gamma)
        * (to_fr(&e.wire_evals.c_eval) + beta * to_fr(&e.perm_evals.out_sigma_eval) + gamma)
        * ((to_fr(&e.wire_evals.d_eval) + gamma) * z_hat * alpha);
    let expected = -b - l1 * alpha * alpha;
    assert_eq!(to_fr(&r0), expected);
}

#[test]
fn quotient_chunk_scalars_are_powers_of_z_to_n() {
    // The chunk scalars are -Z_H(z) times successive powers of Z_H(z) + 1.
    let zh = Fr::from(99u64);
    let (t1, t2, t3, t4) = quotient_term_scalars(&to_scalar(zh));
    let z_n = zh + Fr::one();
    assert_eq!(to_fr(&t1), -zh);
    assert_eq!(to_fr(&t2), -zh * z_n);
    assert_eq!(to_fr(&t3), -zh * z_n * z_n);
    assert_eq!(to_fr(&t4), -zh * z_n * z_n * z_n);
}
