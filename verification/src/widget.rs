//! Gate-constraint widgets, the permutation argument, and the keys.
//!
//! The widget set is closed — Arithmetic, Range, Logic, FixedBaseScalarMul,
//! CurveAddition — but each widget's identity is its own module's business,
//! outside this core.  The core consumes widgets through the traits below:
//! each widget supplies a pointwise quotient term on the prover side and a
//! linearisation contribution on the verifier side, and promises in its
//! contract that the executable term matches its own specification function.
//! The per-circuit keys are consumed the same way: the core only reads point
//! evaluations, selector commitments and precomputed tables.

use vstd::prelude::*;
use crate::commitment::Commitment;
use crate::field::{all_wf, fr_order, vals, Scalar};

verus! {

/// The four wire values of one evaluation point, as integers.
pub struct WitnessVals {
    pub a: nat,
    pub b: nat,
    pub c: nat,
    pub d: nat,
}

/// The custom evaluations of one evaluation point, as integers: the
/// next-row wire values and the arithmetic selector evaluations consumed by
/// the fixed widget set.
pub struct CustomVals {
    pub a_next: nat,
    pub b_next: nat,
    pub d_next: nat,
    pub q_l: nat,
    pub q_r: nat,
    pub q_c: nat,
}

/// The four wire values handed to a widget at one evaluation point.
#[derive(Clone, Copy, PartialEq, Eq, Structural, Debug)]
pub struct WitnessValues {
    pub a_val: Scalar,
    pub b_val: Scalar,
    pub c_val: Scalar,
    pub d_val: Scalar,
}

impl WitnessValues {
    pub open spec fn vals(self) -> WitnessVals {
        WitnessVals {
            a: self.a_val.val(),
            b: self.b_val.val(),
            c: self.c_val.val(),
            d: self.d_val.val(),
        }
    }

    pub open spec fn wf(self) -> bool {
        self.a_val.wf() && self.b_val.wf() && self.c_val.wf() && self.d_val.wf()
    }
}

/// The closed record of custom evaluations: one field per value that the
/// fixed widget set produces during proving and reads back during
/// verification, resolved at compile time instead of by string lookup.
#[derive(Clone, Copy, PartialEq, Eq, Structural, Debug)]
pub struct CustomEvaluations {
    pub a_next_eval: Scalar,
    pub b_next_eval: Scalar,
    pub d_next_eval: Scalar,
    pub q_l_eval: Scalar,
    pub q_r_eval: Scalar,
    pub q_c_eval: Scalar,
}

impl CustomEvaluations {
    pub open spec fn vals(self) -> CustomVals {
        CustomVals {
            a_next: self.a_next_eval.val(),
            b_next: self.b_next_eval.val(),
            d_next: self.d_next_eval.val(),
            q_l: self.q_l_eval.val(),
            q_r: self.q_r_eval.val(),
            q_c: self.q_c_eval.val(),
        }
    }

    pub open spec fn wf(self) -> bool {
        self.a_next_eval.wf() && self.b_next_eval.wf() && self.d_next_eval.wf()
            && self.q_l_eval.wf() && self.q_r_eval.wf() && self.q_c_eval.wf()
    }
}

/// Evaluations of the four wire polynomials at the challenge point.
#[derive(Clone, Copy, PartialEq, Eq, Structural, Debug)]
pub struct WireEvaluations {
    pub a_eval: Scalar,
    pub b_eval: Scalar,
    pub c_eval: Scalar,
    pub d_eval: Scalar,
}

impl WireEvaluations {
    pub open spec fn wf(self) -> bool {
        self.a_eval.wf() && self.b_eval.wf() && self.c_eval.wf() && self.d_eval.wf()
    }
}

/// Evaluations of the sigma polynomials and of the shifted permutation
/// accumulator.
#[derive(Clone, Copy, PartialEq, Eq, Structural, Debug)]
pub struct PermutationEvaluations {
    pub left_sigma_eval: Scalar,
    pub right_sigma_eval: Scalar,
    pub out_sigma_eval: Scalar,
    pub permutation_eval: Scalar,
}

impl PermutationEvaluations {
    pub open spec fn wf(self) -> bool {
        self.left_sigma_eval.wf() && self.right_sigma_eval.wf() && self.out_sigma_eval.wf()
            && self.permutation_eval.wf()
    }
}

/// The evaluation record carried in a proof.
#[derive(Clone, Copy, PartialEq, Eq, Structural, Debug)]
pub struct ProofEvaluations {
    pub wire_evals: WireEvaluations,
    pub perm_evals: PermutationEvaluations,
    pub custom_evals: CustomEvaluations,
}

impl ProofEvaluations {
    pub open spec fn wf(self) -> bool {
        self.wire_evals.wf() && self.perm_evals.wf() && self.custom_evals.wf()
    }
}

/// One gate-constraint widget of the closed set.  A widget is a stateless
/// pure function family: its quotient term must equal its own specification
/// `term_spec`, and its linearisation contribution extends the running
/// scalar/point accumulators without disturbing what is already there.
pub trait GateConstraint: Sized {
    /// The widget's pointwise identity, scaled by its selector and
    /// separation challenge.
    spec fn term_spec(selector: nat, separation_challenge: nat, wit: WitnessVals, custom: CustomVals) -> nat;

    /// Computes the widget's contribution at one evaluation point.
    fn quotient_term(
        selector: &Scalar,
        separation_challenge: &Scalar,
        wit: &WitnessValues,
        custom: &CustomEvaluations,
    ) -> (r: Scalar)
        requires
            selector.wf(),
            separation_challenge.wf(),
            wit.wf(),
            custom.wf(),
        ensures
            r.wf(),
            r.val() == Self::term_spec(
                selector.val(),
                separation_challenge.val(),
                wit.vals(),
                custom.vals(),
            ),
    ;

    /// The scalars of the widget's linearisation pairs, in order.
    spec fn lin_scalars(
        selector_commitment: Commitment,
        separation_challenge: nat,
        evaluations: ProofEvaluations,
    ) -> Seq<nat>;

    /// The points of the widget's linearisation pairs, in order.
    spec fn lin_points(
        selector_commitment: Commitment,
        separation_challenge: nat,
        evaluations: ProofEvaluations,
    ) -> Seq<Commitment>;

    /// An inactive widget contributes nothing: its identity vanishes
    /// wherever its selector does.
    proof fn lemma_inactive(separation_challenge: nat, wit: WitnessVals, custom: CustomVals)
        ensures
            Self::term_spec(0, separation_challenge, wit, custom) == 0,
    ;

    /// Extends the linearisation accumulators with exactly the widget's
    /// (scalar, point) pairs.
    fn extend_linearisation_commitment(
        selector_commitment: &Commitment,
        separation_challenge: &Scalar,
        evaluations: &ProofEvaluations,
        scalars: &mut Vec<Scalar>,
        points: &mut Vec<Commitment>,
    )
        requires
            old(scalars)@.len() == old(points)@.len(),
            all_wf(old(scalars)@),
            separation_challenge.wf(),
            evaluations.wf(),
        ensures
            final(scalars)@.len() == final(points)@.len(),
            all_wf(final(scalars)@),
            vals(final(scalars)@) == vals(old(scalars)@) + Self::lin_scalars(
                *selector_commitment,
                separation_challenge.val(),
                *evaluations,
            ),
            final(points)@ == old(points)@ + Self::lin_points(
                *selector_commitment,
                separation_challenge.val(),
                *evaluations,
            ),
    ;
}

/// The verifier-side arithmetic widget of a verifier key.
pub trait ArithmeticLineariser: Sized {
    /// The scalars of the arithmetic gate's linearisation pairs, in order.
    spec fn lin_scalars(&self, evaluations: ProofEvaluations) -> Seq<nat>;

    /// The points of the arithmetic gate's linearisation pairs, in order.
    spec fn lin_points(&self, evaluations: ProofEvaluations) -> Seq<Commitment>;

    /// Extends the linearisation accumulators with exactly the arithmetic
    /// gate's (scalar, point) pairs.
    fn compute_linearisation_commitment(
        &self,
        scalars: &mut Vec<Scalar>,
        points: &mut Vec<Commitment>,
        evaluations: &ProofEvaluations,
    )
        requires
            old(scalars)@.len() == old(points)@.len(),
            all_wf(old(scalars)@),
            evaluations.wf(),
        ensures
            final(scalars)@.len() == final(points)@.len(),
            all_wf(final(scalars)@),
            vals(final(scalars)@) == vals(old(scalars)@) + self.lin_scalars(*evaluations),
            final(points)@ == old(points)@ + self.lin_points(*evaluations),
    ;
}

/// The verifier-side permutation argument of a verifier key.
pub trait PermutationLineariser: Sized {
    /// The scalars of the copy-constraint linearisation pairs, in order.
    spec fn lin_scalars(
        &self,
        evaluations: ProofEvaluations,
        z_challenge: nat,
        alpha: nat,
        beta: nat,
        gamma: nat,
        l1_eval: nat,
        z_comm: Commitment,
    ) -> Seq<nat>;

    /// The points of the copy-constraint linearisation pairs, in order.
    spec fn lin_points(
        &self,
        evaluations: ProofEvaluations,
        z_challenge: nat,
        alpha: nat,
        beta: nat,
        gamma: nat,
        l1_eval: nat,
        z_comm: Commitment,
    ) -> Seq<Commitment>;

    /// Extends the linearisation accumulators with exactly the
    /// copy-constraint (scalar, point) pairs, including the accumulator
    /// commitment scaled by the challenges and `L1(z)`.
    fn compute_linearisation_commitment(
        &self,
        scalars: &mut Vec<Scalar>,
        points: &mut Vec<Commitment>,
        evaluations: &ProofEvaluations,
        z_challenge: &Scalar,
        alpha: &Scalar,
        beta: &Scalar,
        gamma: &Scalar,
        l1_eval: &Scalar,
        z_comm: &Commitment,
    )
        requires
            old(scalars)@.len() == old(points)@.len(),
            all_wf(old(scalars)@),
            evaluations.wf(),
            z_challenge.wf(),
            alpha.wf(),
            beta.wf(),
            gamma.wf(),
            l1_eval.wf(),
        ensures
            final(scalars)@.len() == final(points)@.len(),
            all_wf(final(scalars)@),
            vals(final(scalars)@) == vals(old(scalars)@) + self.lin_scalars(
                *evaluations,
                z_challenge.val(),
                alpha.val(),
                beta.val(),
                gamma.val(),
                l1_eval.val(),
                *z_comm,
            ),
            final(points)@ == old(points)@ + self.lin_points(
                *evaluations,
                z_challenge.val(),
                alpha.val(),
                beta.val(),
                gamma.val(),
                l1_eval.val(),
                *z_comm,
            ),
    ;
}

/// Read interface of the prover key: precomputed selector and permutation
/// tables over the extended (coset) domain, all supplied fully formed and
/// never mutated by the core.
pub trait ProverKey: Sized {
    /// Number of points of the extended domain the tables cover.
    spec fn ext_size(&self) -> nat;

    /// The key's tables are consistent; in particular the precomputed
    /// vanishing-polynomial evaluations over the coset are nowhere zero.
    spec fn wf(&self) -> bool;

    /// Value of the arithmetic gate identity at point `i`.
    spec fn arith_term_spec(&self, i: nat, wit: WitnessVals) -> nat;

    /// Value of the permutation (copy-constraint) identity at point `i`.
    spec fn perm_term_spec(
        &self,
        i: nat,
        wl: nat,
        wr: nat,
        wo: nat,
        w4: nat,
        z: nat,
        z_next: nat,
        alpha: nat,
        l1_alpha_sq: nat,
        beta: nat,
        gamma: nat,
    ) -> nat;

    /// Selector evaluation tables over the extended domain.
    spec fn range_selector_spec(&self, i: nat) -> nat;

    spec fn logic_selector_spec(&self, i: nat) -> nat;

    spec fn fixed_base_selector_spec(&self, i: nat) -> nat;

    spec fn var_base_selector_spec(&self, i: nat) -> nat;

    spec fn q_l_spec(&self, i: nat) -> nat;

    spec fn q_r_spec(&self, i: nat) -> nat;

    spec fn q_c_spec(&self, i: nat) -> nat;

    /// Vanishing polynomial of the base domain evaluated over the coset.
    spec fn v_h_spec(&self, i: nat) -> nat;

    /// The coset keeps the vanishing polynomial away from zero.
    proof fn lemma_v_h_nonzero(&self, i: nat)
        requires
            self.wf(),
            i < self.ext_size(),
        ensures
            self.v_h_spec(i) % fr_order() != 0,
    ;

    fn arith_quotient_term(&self, i: usize, wit: &WitnessValues) -> (r: Scalar)
        requires
            self.wf(),
            i < self.ext_size(),
            wit.wf(),
        ensures
            r.wf(),
            r.val() == self.arith_term_spec(i as nat, wit.vals()),
    ;

    #[allow(clippy::too_many_arguments)]
    fn perm_quotient_term(
        &self,
        i: usize,
        wl: &Scalar,
        wr: &Scalar,
        wo: &Scalar,
        w4: &Scalar,
        z: &Scalar,
        z_next: &Scalar,
        alpha: &Scalar,
        l1_alpha_sq: &Scalar,
        beta: &Scalar,
        gamma: &Scalar,
    ) -> (r: Scalar)
        requires
            self.wf(),
            i < self.ext_size(),
            wl.wf(),
            wr.wf(),
            wo.wf(),
            w4.wf(),
            z.wf(),
            z_next.wf(),
            alpha.wf(),
            l1_alpha_sq.wf(),
            beta.wf(),
            gamma.wf(),
        ensures
            r.wf(),
            r.val() == self.perm_term_spec(
                i as nat,
                wl.val(),
                wr.val(),
                wo.val(),
                w4.val(),
                z.val(),
                z_next.val(),
                alpha.val(),
                l1_alpha_sq.val(),
                beta.val(),
                gamma.val(),
            ),
    ;

    fn range_selector_at(&self, i: usize) -> (r: Scalar)
        requires
            self.wf(),
            i < self.ext_size(),
        ensures
            r.wf(),
            r.val() == self.range_selector_spec(i as nat),
    ;

    fn logic_selector_at(&self, i: usize) -> (r: Scalar)
        requires
            self.wf(),
            i < self.ext_size(),
        ensures
            r.wf(),
            r.val() == self.logic_selector_spec(i as nat),
    ;

    fn fixed_base_selector_at(&self, i: usize) -> (r: Scalar)
        requires
            self.wf(),
            i < self.ext_size(),
        ensures
            r.wf(),
            r.val() == self.fixed_base_selector_spec(i as nat),
    ;

    fn var_base_selector_at(&self, i: usize) -> (r: Scalar)
        requires
            self.wf(),
            i < self.ext_size(),
        ensures
            r.wf(),
            r.val() == self.var_base_selector_spec(i as nat),
    ;

    fn q_l_at(&self, i: usize) -> (r: Scalar)
        requires
            self.wf(),
            i < self.ext_size(),
        ensures
            r.wf(),
            r.val() == self.q_l_spec(i as nat),
    ;

    fn q_r_at(&self, i: usize) -> (r: Scalar)
        requires
            self.wf(),
            i < self.ext_size(),
        ensures
            r.wf(),
            r.val() == self.q_r_spec(i as nat),
    ;

    fn q_c_at(&self, i: usize) -> (r: Scalar)
        requires
            self.wf(),
            i < self.ext_size(),
        ensures
            r.wf(),
            r.val() == self.q_c_spec(i as nat),
    ;

    fn v_h_coset_at(&self, i: usize) -> (r: Scalar)
        requires
            self.wf(),
            i < self.ext_size(),
        ensures
            r.wf(),
            r.val() == self.v_h_spec(i as nat),
    ;
}

/// The verifier key: domain size, selector commitments, sigma commitments,
/// and the verifier-side halves of the arithmetic and permutation widgets.
/// Read-only, provided fully formed.
pub struct PlonkVerifierKey<A, PM> {
    /// Size of the evaluation domain the circuit was compiled over.
    pub n: usize,
    /// Verifier half of the arithmetic widget.
    pub arithmetic: A,
    pub range_selector_commitment: Commitment,
    pub logic_selector_commitment: Commitment,
    pub fixed_group_add_selector_commitment: Commitment,
    pub variable_group_add_selector_commitment: Commitment,
    pub left_sigma_commitment: Commitment,
    pub right_sigma_commitment: Commitment,
    pub out_sigma_commitment: Commitment,
    /// Verifier half of the permutation argument.
    pub permutation: PM,
}

} // verus!
