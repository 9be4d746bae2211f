//! End-to-end acceptance: an empty circuit — all selectors zero, identity
//! copy constraints, domain padded from 200 rows — proved by a hand-rolled
//! honest prover whose proof serializes, deserializes and verifies.

use vstd::prelude::*;
use ark_ff::{BigInteger256, Field, One, PrimeField, Zero};
use ark_bls12_381::{Bls12_381, Fr, G1Affine};
use ark_poly::{
    univariate::DensePolynomial, EvaluationDomain, Radix2EvaluationDomain, UVPolynomial,
};
use ark_poly_commit::{
    kzg10, sonic_pc::SonicKZG10, LabeledCommitment, LabeledPolynomial, PCRandomness,
    PolynomialCommitment,
};
use plonk_core::commitment::{Commitment, OpeningProof, SchemeVerifierKey};
use plonk_core::domain::{evaluate_vanishing_polynomial, new_domain};
use plonk_core::encoding::{deserialize_proof, serialize_proof};
use plonk_core::field::Scalar;
use plonk_core::proof_system::{compute_first_lagrange_evaluation, Proof};
use plonk_core::transcript::{
    challenge_scalar, transcript_append_commitment, transcript_append_scalar,
};
use plonk_core::widget::{
    ArithmeticLineariser, CustomEvaluations, CustomVals, GateConstraint, PermutationLineariser,
    PlonkVerifierKey, ProofEvaluations, PermutationEvaluations, WireEvaluations, WitnessVals,
    WitnessValues,
};

type Scheme = SonicKZG10<Bls12_381, DensePolynomial<Fr>>;
type Rand = kzg10::Randomness<Fr, DensePolynomial<Fr>>;

fn to_scalar(x: Fr) -> Scalar {
    let l = x.into_repr().0;
    Scalar { l0: l[0], l1: l[1], l2: l[2], l3: l[3] }
}

fn to_fr(s: &Scalar) -> Fr {
    Fr::from_repr(BigInteger256::new([s.l0, s.l1, s.l2, s.l3])).unwrap()
}

const K1: u64 = 2;
const K2: u64 = 3;
const K3: u64 = 5;

struct NullGate;

impl GateConstraint for NullGate {
    fn lin_scalars(_: Commitment, _: nat, _: ProofEvaluations) -> Seq<nat> {
        unreachable!()
    }

    fn lin_points(_: Commitment, _: nat, _: ProofEvaluations) -> Seq<Commitment> {
        unreachable!()
    }

    fn lemma_inactive(_: nat, _: WitnessVals, _: CustomVals) {
    }

    fn term_spec(_: nat, _: nat, _: WitnessVals, _: CustomVals) -> nat {
        unreachable!()
    }

    fn quotient_term(
        _selector: &Scalar,
        _separation_challenge: &Scalar,
        _wit: &WitnessValues,
        _custom: &CustomEvaluations,
    ) -> Scalar {
        to_scalar(Fr::zero())
    }

    fn extend_linearisation_commitment(
        _selector_commitment: &Commitment,
        _separation_challenge: &Scalar,
        _evaluations: &ProofEvaluations,
        _scalars: &mut Vec<Scalar>,
        _points: &mut Vec<Commitment>,
    ) {
    }
}

struct NullArith;

impl ArithmeticLineariser for NullArith {
    fn lin_scalars(&self, _: ProofEvaluations) -> Seq<nat> {
        unreachable!()
    }

    fn lin_points(&self, _: ProofEvaluations) -> Seq<Commitment> {
        unreachable!()
    }

    fn compute_linearisation_commitment(
        &self,
        _scalars: &mut Vec<Scalar>,
        _points: &mut Vec<Commitment>,
        _evaluations: &ProofEvaluations,
    ) {
    }
}

/// The permutation argument's verifier half: the accumulator commitment
/// scaled by the grand-product factors and the boundary term, minus the
/// fourth sigma commitment scaled by the sigma-side factors.
struct PermLineariser {
    fourth_sigma_comm: Commitment,
}

/// The two linearisation coefficients shared by prover and verifier.
fn perm_lin_coeffs(
    a: Fr,
    b: Fr,
    c: Fr,
    d: Fr,
    lsig: Fr,
    rsig: Fr,
    osig: Fr,
    z_hat: Fr,
    z_ch: Fr,
    alpha: Fr,
    beta: Fr,
    gamma: Fr,
    l1: Fr,
) -> (Fr, Fr) {
    let big_a = (a + beta * z_ch + gamma)
        * (b + beta * Fr::from(K1) * z_ch + gamma)
        * (c + beta * Fr::from(K2) * z_ch + gamma)
        * (d + beta * Fr::from(K3) * z_ch + gamma)
        * alpha
        + l1 * alpha * alpha;
    let big_b = (a + beta * lsig + gamma)
        * (b + beta * rsig + gamma)
        * (c + beta * osig + gamma)
        * alpha
        * beta
        * z_hat;
    (big_a, big_b)
}

impl PermutationLineariser for PermLineariser {
    fn lin_scalars(
        &self,
        _: ProofEvaluations,
        _: nat,
        _: nat,
        _: nat,
        _: nat,
        _: nat,
        _: Commitment,
    ) -> Seq<nat> {
        unreachable!()
    }

    fn lin_points(
        &self,
        _: ProofEvaluations,
        _: nat,
        _: nat,
        _: nat,
        _: nat,
        _: nat,
        _: Commitment,
    ) -> Seq<Commitment> {
        unreachable!()
    }

    fn compute_linearisation_commitment(
        &self,
        scalars: &mut Vec<Scalar>,
        points: &mut Vec<Commitment>,
        evaluations: &ProofEvaluations,
        z_challenge: &Scalar,
        alpha: &Scalar,
        beta: &Scalar,
        gamma: &Scalar,
        l1_eval: &Scalar,
        z_comm: &Commitment,
    ) {
        let (big_a, big_b) = perm_lin_coeffs(
            to_fr(&evaluations.wire_evals.a_eval),
            to_fr(&evaluations.wire_evals.b_eval),
            to_fr(&evaluations.wire_evals.c_eval),
            to_fr(&evaluations.wire_evals.d_eval),
            to_fr(&evaluations.perm_evals.left_sigma_eval),
            to_fr(&evaluations.perm_evals.right_sigma_eval),
            to_fr(&evaluations.perm_evals.out_sigma_eval),
            to_fr(&evaluations.perm_evals.permutation_eval),
            to_fr(z_challenge),
            to_fr(alpha),
            to_fr(beta),
            to_fr(gamma),
            to_fr(l1_eval),
        );
        scalars.push(to_scalar(big_a));
        points.push(z_comm.clone());
        scalars.push(to_scalar(-big_b));
        points.push(self.fourth_sigma_comm.clone());
    }
}

struct Setup {
    proof: Proof,
    plonk_vk: PlonkVerifierKey<NullArith, PermLineariser>,
    scheme_vk: SchemeVerifierKey,
}

fn prove_empty_circuit() -> Setup {
    let rows = 200usize;
    let our_domain = new_domain(rows).unwrap();
    let n = our_domain.size as usize;
    assert_eq!(n, 256);
    let ark_domain = Radix2EvaluationDomain::<Fr>::new(rows).unwrap();

    let mut rng = ark_std::test_rng();
    let pp = Scheme::setup(16, None, &mut rng).unwrap();
    let (ck, svk) = Scheme::trim(&pp, 16, 0, None).unwrap();
    let scheme_vk = SchemeVerifierKey { inner: svk };

    // The fixed polynomials of the empty circuit.
    let zero_poly = DensePolynomial::from_coefficients_vec(vec![]);
    let one_poly = DensePolynomial::from_coefficients_vec(vec![Fr::one()]);
    let sigma_poly = |k: u64| {
        DensePolynomial::from_coefficients_vec(vec![Fr::zero(), Fr::from(k)])
    };
    let sigma1 = sigma_poly(1);
    let sigma2 = sigma_poly(K1);
    let sigma3 = sigma_poly(K2);
    let sigma4 = sigma_poly(K3);

    let lp = |name: &str, p: &DensePolynomial<Fr>| {
        LabeledPolynomial::new(name.to_string(), p.clone(), None, None)
    };
    let commit1 = |p: &DensePolynomial<Fr>| -> Commitment {
        let (cs, _r) = Scheme::commit(&ck, [&lp("p", p)], None).unwrap();
        Commitment { inner: cs[0].commitment().0 }
    };

    let zero_comm = Commitment { inner: G1Affine::zero() };
    let z_comm = commit1(&one_poly);
    let sigma1_comm = commit1(&sigma1);
    let sigma2_comm = commit1(&sigma2);
    let sigma3_comm = commit1(&sigma3);
    let sigma4_comm = commit1(&sigma4);

    // --- Prover: replay the transcript in the verifier's exact order. ---
    let mut tp = plonk_core::transcript::transcript_new("plonk");
    transcript_append_commitment(&mut tp, "w_l", &zero_comm);
    transcript_append_commitment(&mut tp, "w_r", &zero_comm);
    transcript_append_commitment(&mut tp, "w_o", &zero_comm);
    transcript_append_commitment(&mut tp, "w_4", &zero_comm);
    let beta = challenge_scalar(&mut tp, "beta");
    transcript_append_scalar(&mut tp, "beta", &beta);
    let gamma = challenge_scalar(&mut tp, "gamma");
    transcript_append_scalar(&mut tp, "gamma", &gamma);
    assert_ne!(beta, gamma);
    transcript_append_commitment(&mut tp, "z", &z_comm);
    let alpha = challenge_scalar(&mut tp, "alpha");
    let _range = challenge_scalar(&mut tp, "range separation challenge");
    let _logic = challenge_scalar(&mut tp, "logic separation challenge");
    let _fixed = challenge_scalar(&mut tp, "fixed base separation challenge");
    let _var = challenge_scalar(&mut tp, "variable base separation challenge");
    transcript_append_commitment(&mut tp, "t_1", &zero_comm);
    transcript_append_commitment(&mut tp, "t_2", &zero_comm);
    transcript_append_commitment(&mut tp, "t_3", &zero_comm);
    transcript_append_commitment(&mut tp, "t_4", &zero_comm);
    let z_challenge = challenge_scalar(&mut tp, "z");
    let z_fr = to_fr(&z_challenge);

    // The quotient of the empty circuit is identically zero, so the chunks
    // stay zero; the evaluations follow directly.
    let evaluations = ProofEvaluations {
        wire_evals: WireEvaluations {
            a_eval: to_scalar(Fr::zero()),
            b_eval: to_scalar(Fr::zero()),
            c_eval: to_scalar(Fr::zero()),
            d_eval: to_scalar(Fr::zero()),
        },
        perm_evals: PermutationEvaluations {
            left_sigma_eval: to_scalar(z_fr),
            right_sigma_eval: to_scalar(Fr::from(K1) * z_fr),
            out_sigma_eval: to_scalar(Fr::from(K2) * z_fr),
            permutation_eval: to_scalar(Fr::one()),
        },
        custom_evals: CustomEvaluations {
            a_next_eval: to_scalar(Fr::zero()),
            b_next_eval: to_scalar(Fr::zero()),
            d_next_eval: to_scalar(Fr::zero()),
            q_l_eval: to_scalar(Fr::zero()),
            q_r_eval: to_scalar(Fr::zero()),
            q_c_eval: to_scalar(Fr::zero()),
        },
    };

    transcript_append_scalar(&mut tp, "a_eval", &evaluations.wire_evals.a_eval);
    transcript_append_scalar(&mut tp, "b_eval", &evaluations.wire_evals.b_eval);
    transcript_append_scalar(&mut tp, "c_eval", &evaluations.wire_evals.c_eval);
    transcript_append_scalar(&mut tp, "d_eval", &evaluations.wire_evals.d_eval);
    transcript_append_scalar(&mut tp, "left_sig_eval", &evaluations.perm_evals.left_sigma_eval);
    transcript_append_scalar(&mut tp, "right_sig_eval", &evaluations.perm_evals.right_sigma_eval);
    transcript_append_scalar(&mut tp, "out_sig_eval", &evaluations.perm_evals.out_sigma_eval);
    transcript_append_scalar(&mut tp, "perm_eval", &evaluations.perm_evals.permutation_eval);
    transcript_append_scalar(&mut tp, "a_next_eval", &evaluations.custom_evals.a_next_eval);
    transcript_append_scalar(&mut tp, "b_next_eval", &evaluations.custom_evals.b_next_eval);
    transcript_append_scalar(&mut tp, "d_next_eval", &evaluations.custom_evals.d_next_eval);
    transcript_append_scalar(&mut tp, "q_l_eval", &evaluations.custom_evals.q_l_eval);
    transcript_append_scalar(&mut tp, "q_r_eval", &evaluations.custom_evals.q_r_eval);
    transcript_append_scalar(&mut tp, "q_c_eval", &evaluations.custom_evals.q_c_eval);

    // Linearisation polynomial r(X) = A·z(X) − B·σ4(X).
    let zh = evaluate_vanishing_polynomial(&our_domain, &z_challenge);
    let l1 = compute_first_lagrange_evaluation(&our_domain, &zh, &z_challenge).unwrap();
    let (big_a, big_b) = perm_lin_coeffs(
        Fr::zero(),
        Fr::zero(),
        Fr::zero(),
        Fr::zero(),
        z_fr,
        Fr::from(K1) * z_fr,
        Fr::from(K2) * z_fr,
        Fr::one(),
        z_fr,
        to_fr(&alpha),
        to_fr(&beta),
        to_fr(&gamma),
        to_fr(&l1),
    );
    let r_poly = &(&one_poly * big_a) - &(&sigma4 * big_b);

    let aw_challenge = challenge_scalar(&mut tp, "aggregate_witness");
    let saw_challenge = challenge_scalar(&mut tp, "aggregate_witness");

    let aw_polys = [
        lp("lin", &r_poly),
        lp("s1", &sigma1),
        lp("s2", &sigma2),
        lp("s3", &sigma3),
        lp("wl", &zero_poly),
        lp("wr", &zero_poly),
        lp("wo", &zero_poly),
        lp("w4", &zero_poly),
    ];
    let aw_comms: Vec<LabeledCommitment<kzg10::Commitment<Bls12_381>>> = Vec::new();
    let rands: Vec<Rand> = (0..8).map(|_| Rand::empty()).collect();
    let aw_opening = Scheme::open(
        &ck,
        aw_polys.iter(),
        aw_comms.iter(),
        &z_fr,
        to_fr(&aw_challenge),
        rands.iter(),
        None,
    )
    .unwrap();

    let shifted = z_fr * to_fr(&our_domain.group_gen);
    let saw_polys = [
        lp("z", &one_poly),
        lp("wl", &zero_poly),
        lp("wr", &zero_poly),
        lp("w4", &zero_poly),
    ];
    let rands4: Vec<Rand> = (0..4).map(|_| Rand::empty()).collect();
    let saw_opening = Scheme::open(
        &ck,
        saw_polys.iter(),
        aw_comms.iter(),
        &shifted,
        to_fr(&saw_challenge),
        rands4.iter(),
        None,
    )
    .unwrap();

    let proof = Proof {
        a_comm: zero_comm.clone(),
        b_comm: zero_comm.clone(),
        c_comm: zero_comm.clone(),
        d_comm: zero_comm.clone(),
        z_comm: z_comm.clone(),
        t_1_comm: zero_comm.clone(),
        t_2_comm: zero_comm.clone(),
        t_3_comm: zero_comm.clone(),
        t_4_comm: zero_comm.clone(),
        aw_opening: OpeningProof {
            w: Commitment { inner: aw_opening.w },
            random_v: aw_opening.random_v.map(to_scalar),
        },
        saw_opening: OpeningProof {
            w: Commitment { inner: saw_opening.w },
            random_v: saw_opening.random_v.map(to_scalar),
        },
        evaluations,
    };

    let plonk_vk = PlonkVerifierKey {
        n: rows,
        arithmetic: NullArith,
        range_selector_commitment: zero_comm.clone(),
        logic_selector_commitment: zero_comm.clone(),
        fixed_group_add_selector_commitment: zero_comm.clone(),
        variable_group_add_selector_commitment: zero_comm.clone(),
        left_sigma_commitment: sigma1_comm,
        right_sigma_commitment: sigma2_comm,
        out_sigma_commitment: sigma3_comm,
        permutation: PermLineariser { fourth_sigma_comm: sigma4_comm },
    };
    let _ = ark_domain.size();
    Setup { proof, plonk_vk, scheme_vk }
}

fn run_verify(setup: &Setup, proof: &Proof) -> Result<(), plonk_core::Error> {
    let mut tv = plonk_core::transcript::transcript_new("plonk");
    proof.verify::<NullArith, PermLineariser, NullGate, NullGate, NullGate, NullGate>(
        &setup.plonk_vk,
        &mut tv,
        &setup.scheme_vk,
        &Vec::new(),
    )
}

#[test]
fn empty_circuit_proof_roundtrips_and_verifies() {
    let setup = prove_empty_circuit();
    // The proof must survive the wire format.
    let bytes = serialize_proof(&setup.proof);
    let decoded = deserialize_proof(&bytes).expect("decode");
    assert_eq!(setup.proof, decoded);
    assert_eq!(run_verify(&setup, &decoded), Ok(()));
}

#[test]
fn single_bit_mutations_break_verification() {
    // Flipping one bit anywhere in a valid proof's encoding must make it
    // fail to decode or fail to verify; it must never still be accepted.
    let setup = prove_empty_circuit();
    assert_eq!(run_verify(&setup, &setup.proof), Ok(()));
    let bytes = serialize_proof(&setup.proof);
    let mut position = 0usize;
    while position < bytes.len() {
        let mut tampered = bytes.clone();
        tampered[position] ^= 1 << (position % 8);
        if let Ok(mutated) = deserialize_proof(&tampered) {
            assert_ne!(run_verify(&setup, &mutated), Ok(()), "byte {}", position);
        }
        position += 97;
    }
}
