//! Quotient identity: for a small domain and a satisfying witness,
//! `t(X) · Z_H(X)` equals the combined gate and permutation identity as an
//! exact coefficient-wise polynomial equality.

use vstd::prelude::*;
use ark_ff::{BigInteger256, FftField, Field, One, PrimeField, Zero};
use ark_bls12_381::Fr;
use ark_poly::{
    univariate::DensePolynomial, EvaluationDomain, Polynomial, Radix2EvaluationDomain,
    UVPolynomial,
};
use plonk_core::commitment::Commitment;
use plonk_core::domain::new_domain;
use plonk_core::field::Scalar;
use plonk_core::quotient::compute;
use plonk_core::widget::{
    CustomEvaluations, CustomVals, GateConstraint, ProofEvaluations, ProverKey, WitnessVals,
    WitnessValues,
};

fn to_scalar(x: Fr) -> Scalar {
    let l = x.into_repr().0;
    Scalar { l0: l[0], l1: l[1], l2: l[2], l3: l[3] }
}

fn to_fr(s: &Scalar) -> Fr {
    Fr::from_repr(BigInteger256::new([s.l0, s.l1, s.l2, s.l3])).unwrap()
}

/// A widget that is switched off: its term is zero and it contributes no
/// linearisation pairs.
struct NullGate;

impl GateConstraint for NullGate {
    fn lin_scalars(_: Commitment, _: nat, _: ProofEvaluations) -> Seq<nat> {
        unreachable!()
    }

    fn lin_points(_: Commitment, _: nat, _: ProofEvaluations) -> Seq<Commitment> {
        unreachable!()
    }

    fn lemma_inactive(_: nat, _: WitnessVals, _: CustomVals) {
    }

    fn term_spec(_: nat, _: nat, _: WitnessVals, _: CustomVals) -> nat {
        unreachable!()
    }

    fn quotient_term(
        _selector: &Scalar,
        _separation_challenge: &Scalar,
        _wit: &WitnessValues,
        _custom: &CustomEvaluations,
    ) -> Scalar {
        to_scalar(Fr::zero())
    }

    fn extend_linearisation_commitment(
        _selector_commitment: &Commitment,
        _separation_challenge: &Scalar,
        _evaluations: &ProofEvaluations,
        _scalars: &mut Vec<Scalar>,
        _points: &mut Vec<Commitment>,
    ) {
    }
}

/// Prover key of a four-row arithmetic circuit: selector and sigma tables
/// evaluated over the extended coset, the coset points themselves, and the
/// vanishing evaluations.
struct TestProverKey {
    q_m: Vec<Fr>,
    q_l: Vec<Fr>,
    q_r: Vec<Fr>,
    q_o: Vec<Fr>,
    q_4: Vec<Fr>,
    q_c: Vec<Fr>,
    sigma: [Vec<Fr>; 4],
    xs: Vec<Fr>,
    v_h: Vec<Fr>,
    ks: [Fr; 4],
}

impl ProverKey for TestProverKey {
    fn ext_size(&self) -> nat {
        unreachable!()
    }

    fn wf(&self) -> bool {
        true
    }

    fn arith_term_spec(&self, _: nat, _: WitnessVals) -> nat {
        unreachable!()
    }

    fn perm_term_spec(
        &self,
        _: nat,
        _: nat,
        _: nat,
        _: nat,
        _: nat,
        _: nat,
        _: nat,
        _: nat,
        _: nat,
        _: nat,
        _: nat,
    ) -> nat {
        unreachable!()
    }

    fn range_selector_spec(&self, _: nat) -> nat {
        unreachable!()
    }

    fn logic_selector_spec(&self, _: nat) -> nat {
        unreachable!()
    }

    fn fixed_base_selector_spec(&self, _: nat) -> nat {
        unreachable!()
    }

    fn var_base_selector_spec(&self, _: nat) -> nat {
        unreachable!()
    }

    fn q_l_spec(&self, _: nat) -> nat {
        unreachable!()
    }

    fn q_r_spec(&self, _: nat) -> nat {
        unreachable!()
    }

    fn q_c_spec(&self, _: nat) -> nat {
        unreachable!()
    }

    fn v_h_spec(&self, _: nat) -> nat {
        unreachable!()
    }

    fn lemma_v_h_nonzero(&self, _: nat) {
    }

    fn arith_quotient_term(&self, i: usize, wit: &WitnessValues) -> Scalar {
        let a = to_fr(&wit.a_val);
        let b = to_fr(&wit.b_val);
        let c = to_fr(&wit.c_val);
        let d = to_fr(&wit.d_val);
        to_scalar(
            self.q_m[i] * a * b + self.q_l[i] * a + self.q_r[i] * b + self.q_o[i] * c
                + self.q_4[i] * d + self.q_c[i],
        )
    }

    fn perm_quotient_term(
        &self,
        i: usize,
        wl: &Scalar,
        wr: &Scalar,
        wo: &Scalar,
        w4: &Scalar,
        z: &Scalar,
        z_next: &Scalar,
        alpha: &Scalar,
        l1_alpha_sq: &Scalar,
        beta: &Scalar,
        gamma: &Scalar,
    ) -> Scalar {
        let w = [to_fr(wl), to_fr(wr), to_fr(wo), to_fr(w4)];
        let (alpha, beta, gamma) = (to_fr(alpha), to_fr(beta), to_fr(gamma));
        let x = self.xs[i];
        let mut num = to_fr(z) * alpha;
        let mut den = to_fr(z_next) * alpha;
        for j in 0..4 {
            num *= w[j] + beta * self.ks[j] * x + gamma;
            den *= w[j] + beta * self.sigma[j][i] + gamma;
        }
        to_scalar(num - den + to_fr(l1_alpha_sq) * (to_fr(z) - Fr::one()))
    }

    fn range_selector_at(&self, _i: usize) -> Scalar {
        to_scalar(Fr::zero())
    }

    fn logic_selector_at(&self, _i: usize) -> Scalar {
        to_scalar(Fr::zero())
    }

    fn fixed_base_selector_at(&self, _i: usize) -> Scalar {
        to_scalar(Fr::zero())
    }

    fn var_base_selector_at(&self, _i: usize) -> Scalar {
        to_scalar(Fr::zero())
    }

    fn q_l_at(&self, i: usize) -> Scalar {
        to_scalar(self.q_l[i])
    }

    fn q_r_at(&self, i: usize) -> Scalar {
        to_scalar(self.q_r[i])
    }

    fn q_c_at(&self, i: usize) -> Scalar {
        to_scalar(self.q_c[i])
    }

    fn v_h_coset_at(&self, i: usize) -> Scalar {
        to_scalar(self.v_h[i])
    }
}

fn coset_evals(domain_4n: &Radix2EvaluationDomain<Fr>, poly: &DensePolynomial<Fr>) -> Vec<Fr> {
    domain_4n.coset_fft(poly)
}

#[test]
fn quotient_times_vanishing_equals_identity() {
    let n = 4usize;
    let domain = Radix2EvaluationDomain::<Fr>::new(n).unwrap();
    let domain_4n = Radix2EvaluationDomain::<Fr>::new(4 * n).unwrap();
    let g = Fr::multiplicative_generator();

    // A satisfying witness for two multiplication rows: a * b = c.
    let a_vals = vec![Fr::from(2u64), Fr::from(3u64), Fr::zero(), Fr::zero()];
    let b_vals = vec![Fr::from(3u64), Fr::from(4u64), Fr::zero(), Fr::zero()];
    let c_vals = vec![Fr::from(6u64), Fr::from(12u64), Fr::zero(), Fr::zero()];
    let d_vals = vec![Fr::zero(); 4];
    let q_m_vals = vec![Fr::one(), Fr::one(), Fr::zero(), Fr::zero()];
    let q_o_vals = vec![-Fr::one(), -Fr::one(), Fr::zero(), Fr::zero()];
    let zeros = vec![Fr::zero(); 4];

    let poly_of = |v: &Vec<Fr>| DensePolynomial::from_coefficients_vec(domain.ifft(v));
    let wl = poly_of(&a_vals);
    let wr = poly_of(&b_vals);
    let wo = poly_of(&c_vals);
    let w4 = poly_of(&d_vals);
    let q_m = poly_of(&q_m_vals);
    let q_o = poly_of(&q_o_vals);
    let q_zero = poly_of(&zeros);
    let z_poly = DensePolynomial::from_coefficients_vec(vec![Fr::one()]);

    // Identity copy constraints: sigma_j(X) = k_j X.
    let ks = [Fr::one(), Fr::from(2u64), Fr::from(3u64), Fr::from(5u64)];
    let xs: Vec<Fr> = (0..4 * n).map(|i| g * domain_4n.element(i)).collect();
    let sigma = [
        xs.iter().map(|x| ks[0] * *x).collect::<Vec<_>>(),
        xs.iter().map(|x| ks[1] * *x).collect::<Vec<_>>(),
        xs.iter().map(|x| ks[2] * *x).collect::<Vec<_>>(),
        xs.iter().map(|x| ks[3] * *x).collect::<Vec<_>>(),
    ];
    let v_h: Vec<Fr> = xs.iter().map(|x| x.pow([n as u64]) - Fr::one()).collect();

    let key = TestProverKey {
        q_m: coset_evals(&domain_4n, &q_m),
        q_l: coset_evals(&domain_4n, &q_zero),
        q_r: coset_evals(&domain_4n, &q_zero),
        q_o: coset_evals(&domain_4n, &q_o),
        q_4: coset_evals(&domain_4n, &q_zero),
        q_c: coset_evals(&domain_4n, &q_zero),
        sigma,
        xs,
        v_h,
        ks,
    };

    let our_domain = new_domain(n).unwrap();
    let sv = |p: &DensePolynomial<Fr>| -> Vec<Scalar> {
        p.coeffs.iter().map(|x| to_scalar(*x)).collect()
    };
    let alpha = to_scalar(Fr::from(17u64));
    let beta = to_scalar(Fr::from(23u64));
    let gamma = to_scalar(Fr::from(29u64));
    let ch = to_scalar(Fr::from(31u64));

    let t_coeffs = compute::<NullGate, NullGate, NullGate, NullGate, TestProverKey>(
        &our_domain,
        &key,
        &sv(&z_poly),
        &sv(&wl),
        &sv(&wr),
        &sv(&wo),
        &sv(&w4),
        &Vec::new(),
        &alpha,
        &beta,
        &gamma,
        &ch,
        &ch,
        &ch,
        &ch,
    )
    .expect("quotient");

    let t_poly = DensePolynomial::from_coefficients_vec(
        t_coeffs.iter().map(|s| to_fr(s)).collect(),
    );

    // The permutation identity vanishes identically here (the accumulator is
    // constant one and the copy constraints are the identity), so the full
    // identity is the arithmetic gate alone.
    let identity = &(&(&q_m * &wl) * &wr) + &(&q_o * &wo);

    let mut vanishing = vec![Fr::zero(); n + 1];
    vanishing[0] = -Fr::one();
    vanishing[n] = Fr::one();
    let z_h = DensePolynomial::from_coefficients_vec(vanishing);

    let product = &t_poly * &z_h;
    assert_eq!(product, identity);
    assert!(!t_poly.is_zero());
}
