//! Quotient-polynomial construction.
//!
//! The prover-side computation that produces the single polynomial `t(X)`
//! certifying that every per-row gate identity and the copy-constraint
//! identity hold: the summed identities are evaluated over the coset of the
//! `4n`-point extended domain, divided pointwise by the vanishing polynomial
//! of the base domain (never zero on the coset), and transformed back to
//! coefficient form.

use vstd::prelude::*;
use crate::domain::{
    coset_ifft_of, coset_point, domain_coset_fft, domain_coset_ifft, domain_generator,
    domain_ifft, ifft_of, is_pow2, lemma_pow2_double, lemma_pow2_strict, new_domain, poly_eval,
    spec_trailing_zeros, Domain, TWO_ADICITY,
};
use crate::field::{
    all_wf, f_add, f_inv, f_mul, lemma_f_inv_witness, lemma_small_mod_wrap, scalar_add,
    scalar_inverse, scalar_mul, scalar_zero, vals, Scalar,
};
use crate::widget::{CustomEvaluations, CustomVals, GateConstraint, ProverKey, WitnessVals, WitnessValues};
use crate::Error;

verus! {

/// Evaluation of a coefficient vector at the `i`-th coset point.
pub open spec fn coset_eval(coeffs: Seq<nat>, gen: nat, i: nat) -> nat {
    poly_eval(coeffs, coset_point(gen, i))
}

/// Coset evaluation with the wrap-around duplication: indices past the
/// domain size read the first points again, so that `i + 4` is always the
/// next circuit row.
pub open spec fn wrap_eval(coeffs: Seq<nat>, gen: nat, n4: nat, i: nat) -> nat {
    if i < n4 {
        coset_eval(coeffs, gen, i)
    } else {
        coset_eval(coeffs, gen, (i - n4) as nat)
    }
}

/// The challenges the quotient combination consumes, as integers.
pub struct QuotientChallenges {
    pub alpha: nat,
    pub beta: nat,
    pub gamma: nat,
    pub range: nat,
    pub logic: nat,
    pub fixed: nat,
    pub var: nat,
}

/// Value of the combined gate identity at coset index `i`: the arithmetic
/// gate term, the public-input polynomial, and the four custom widget terms
/// summed in that order.
pub open spec fn gate_value<
    R: GateConstraint,
    L: GateConstraint,
    FB: GateConstraint,
    CA: GateConstraint,
    K: ProverKey,
>(
    key: K,
    gen4: nat,
    n4: nat,
    wl: Seq<nat>,
    wr: Seq<nat>,
    wo: Seq<nat>,
    w4: Seq<nat>,
    pi_p: Seq<nat>,
    ch: QuotientChallenges,
    i: nat,
) -> nat {
    let wit = WitnessVals { a: wl[i as int], b: wr[i as int], c: wo[i as int], d: w4[i as int] };
    let custom = CustomVals {
        a_next: wl[i as int + 4],
        b_next: wr[i as int + 4],
        d_next: w4[i as int + 4],
        q_l: key.q_l_spec(i),
        q_r: key.q_r_spec(i),
        q_c: key.q_c_spec(i),
    };
    f_add(
        f_add(
            f_add(
                f_add(
                    f_add(key.arith_term_spec(i, wit), coset_eval(pi_p, gen4, i)),
                    R::term_spec(key.range_selector_spec(i), ch.range, wit, custom),
                ),
                L::term_spec(key.logic_selector_spec(i), ch.logic, wit, custom),
            ),
            FB::term_spec(key.fixed_base_selector_spec(i), ch.fixed, wit, custom),
        ),
        CA::term_spec(key.var_base_selector_spec(i), ch.var, wit, custom),
    )
}

/// The first-Lagrange-polynomial coefficients scaled by `alpha²`, as pinned
/// by the inverse transform of the unit evaluation vector.
pub open spec fn l1_scaled_coeffs(n: nat, alpha: nat) -> Seq<nat> {
    ifft_of(Seq::new(n, |j: int| if j == 0 { f_mul(alpha, alpha) } else { 0nat }))
}

/// The permutation-identity contribution at point `i`, over the coset
/// evaluations of the wires and the accumulator.
pub open spec fn perm_value<K: ProverKey>(
    key: K,
    n: nat,
    gen4: nat,
    n4: nat,
    wl: Seq<nat>,
    wr: Seq<nat>,
    wo: Seq<nat>,
    w4: Seq<nat>,
    z: Seq<nat>,
    alpha: nat,
    beta: nat,
    gamma: nat,
    i: nat,
) -> nat {
    key.perm_term_spec(
        i,
        wl[i as int],
        wr[i as int],
        wo[i as int],
        w4[i as int],
        z[i as int],
        z[i as int + 4],
        alpha,
        coset_eval(l1_scaled_coeffs(n, alpha), gen4, i),
        beta,
        gamma,
    )
}

/// The quotient evaluation at point `i`: the summed identities divided by
/// the vanishing-polynomial evaluation at that coset point.
pub open spec fn quotient_value<
    R: GateConstraint,
    L: GateConstraint,
    FB: GateConstraint,
    CA: GateConstraint,
    K: ProverKey,
>(
    key: K,
    n: nat,
    gen4: nat,
    n4: nat,
    zp: Seq<nat>,
    wlp: Seq<nat>,
    wrp: Seq<nat>,
    wop: Seq<nat>,
    w4p: Seq<nat>,
    pip: Seq<nat>,
    ch: QuotientChallenges,
    i: nat,
) -> nat {
    let wl = Seq::new(n4 + 4, |t: int| wrap_eval(wlp, gen4, n4, t as nat));
    let wr = Seq::new(n4 + 4, |t: int| wrap_eval(wrp, gen4, n4, t as nat));
    let wo = Seq::new(n4, |t: int| coset_eval(wop, gen4, t as nat));
    let w4 = Seq::new(n4 + 4, |t: int| wrap_eval(w4p, gen4, n4, t as nat));
    let z = Seq::new(n4 + 4, |t: int| wrap_eval(zp, gen4, n4, t as nat));
    let gate = gate_value::<R, L, FB, CA, K>(key, gen4, n4, wl, wr, wo, w4, pip, ch, i);
    let perm = perm_value::<K>(key, n, gen4, n4, wl, wr, wo, w4, z, ch.alpha, ch.beta, ch.gamma, i);
    f_mul(f_add(gate, perm), f_inv(key.v_h_spec(i)))
}

/// Appends copies of the first four entries, so that index `i + 4` wraps to
/// the next circuit row without modular arithmetic.
fn extend_wrap(v: &mut Vec<Scalar>)
    requires
        old(v)@.len() >= 4,
    ensures
        final(v)@.len() == old(v)@.len() + 4,
        forall|i: int| 0 <= i < old(v)@.len() ==> final(v)@[i] == old(v)@[i],
        forall|k: int| 0 <= k < 4 ==> final(v)@[old(v)@.len() + k] == old(v)@[k],
{
    let a = v[0];
    let b = v[1];
    let c = v[2];
    let d = v[3];
    v.push(a);
    v.push(b);
    v.push(c);
    v.push(d);
}

/// The extended domain is exactly four times the base domain.
proof fn lemma_domain_4n_size(base: nat, d4: Domain, num: nat)
    requires
        is_pow2(base),
        num == 4 * base,
        d4.wf(),
        num <= d4.size,
        d4.size == 1 || (d4.size as nat) / 2 < num,
    ensures
        d4.size == num,
{
    lemma_pow2_double(base);
    lemma_pow2_double(2 * base);
    assert(is_pow2(num));
    if d4.size > num {
        lemma_pow2_strict(num, d4.size as nat);
    }
}

/// Computes the quotient polynomial, as its coefficient vector, from the
/// accumulator, wire and public-input polynomials and the drawn challenges.
///
/// Fails exactly when the `4n`-point extended domain cannot be represented
/// in the field's two-power subgroup.
#[allow(clippy::too_many_arguments)]
pub fn compute<
    R: GateConstraint,
    L: GateConstraint,
    FB: GateConstraint,
    CA: GateConstraint,
    K: ProverKey,
>(
    domain: &Domain,
    prover_key: &K,
    z_poly: &Vec<Scalar>,
    w_l_poly: &Vec<Scalar>,
    w_r_poly: &Vec<Scalar>,
    w_o_poly: &Vec<Scalar>,
    w_4_poly: &Vec<Scalar>,
    public_inputs_poly: &Vec<Scalar>,
    alpha: &Scalar,
    beta: &Scalar,
    gamma: &Scalar,
    range_challenge: &Scalar,
    logic_challenge: &Scalar,
    fixed_base_challenge: &Scalar,
    var_base_challenge: &Scalar,
) -> (r: Result<Vec<Scalar>, Error>)
    requires
        domain.wf(),
        4 * domain.size <= usize::MAX,
        prover_key.wf(),
        prover_key.ext_size() == 4 * domain.size,
        all_wf(z_poly@),
        all_wf(w_l_poly@),
        all_wf(w_r_poly@),
        all_wf(w_o_poly@),
        all_wf(w_4_poly@),
        all_wf(public_inputs_poly@),
        z_poly@.len() <= 4 * domain.size,
        w_l_poly@.len() <= 4 * domain.size,
        w_r_poly@.len() <= 4 * domain.size,
        w_o_poly@.len() <= 4 * domain.size,
        w_4_poly@.len() <= 4 * domain.size,
        public_inputs_poly@.len() <= 4 * domain.size,
        alpha.wf(),
        beta.wf(),
        gamma.wf(),
        range_challenge.wf(),
        logic_challenge.wf(),
        fixed_base_challenge.wf(),
        var_base_challenge.wf(),
    ensures
        r is Ok <==> 4 * domain.size <= 0x100000000,
        r matches Err(Error::InvalidEvalDomainSize { log_size_of_group, adicity })
            ==> log_size_of_group == spec_trailing_zeros((4 * domain.size) as u64) && adicity
            == TWO_ADICITY,
        r matches Err(e) ==> e matches Error::InvalidEvalDomainSize { .. },
        r matches Ok(q) ==> {
            let n4 = (4 * domain.size) as nat;
            let gen4 = domain_generator(n4);
            let ch = QuotientChallenges {
                alpha: alpha.val(),
                beta: beta.val(),
                gamma: gamma.val(),
                range: range_challenge.val(),
                logic: logic_challenge.val(),
                fixed: fixed_base_challenge.val(),
                var: var_base_challenge.val(),
            };
            let values = Seq::new(
                n4,
                |i: int|
                    quotient_value::<R, L, FB, CA, K>(
                        *prover_key,
                        domain.size as nat,
                        gen4,
                        n4,
                        vals(z_poly@),
                        vals(w_l_poly@),
                        vals(w_r_poly@),
                        vals(w_o_poly@),
                        vals(w_4_poly@),
                        vals(public_inputs_poly@),
                        ch,
                        i as nat,
                    ),
            );
            &&& q@.len() == n4
            &&& all_wf(q@)
            &&& vals(q@) == coset_ifft_of(values)
            &&& forall|i: int|
                0 <= i < n4 ==> poly_eval(vals(q@), coset_point(gen4, i as nat)) == values[i]
        },
{
    let n4_usize = (4 * domain.size) as usize;
    let domain_4n = match new_domain(n4_usize) {
        Ok(d) => d,
        Err(e) => {
            return Err(e);
        },
    };
    proof {
        lemma_domain_4n_size(domain.size as nat, domain_4n, n4_usize as nat);
    }
    let ghost gen4 = domain_4n.group_gen.val();
    let ghost n4 = n4_usize as nat;

    let mut z_eval_4n = domain_coset_fft(&domain_4n, z_poly);
    let ghost z_pre = z_eval_4n@;
    extend_wrap(&mut z_eval_4n);

    let mut wl_eval_4n = domain_coset_fft(&domain_4n, w_l_poly);
    let ghost wl_pre = wl_eval_4n@;
    extend_wrap(&mut wl_eval_4n);

    let mut wr_eval_4n = domain_coset_fft(&domain_4n, w_r_poly);
    let ghost wr_pre = wr_eval_4n@;
    extend_wrap(&mut wr_eval_4n);

    let wo_eval_4n = domain_coset_fft(&domain_4n, w_o_poly);

    let mut w4_eval_4n = domain_coset_fft(&domain_4n, w_4_poly);
    let ghost w4_pre = w4_eval_4n@;
    extend_wrap(&mut w4_eval_4n);

    proof {
        assert forall|t: int| 0 <= t < n4 + 4 implies (#[trigger] z_eval_4n@[t]).wf()
            && z_eval_4n@[t].val() == wrap_eval(vals(z_poly@), gen4, n4, t as nat) by {
            if t < n4 {
                assert(z_eval_4n@[t] == z_pre[t]);
            } else {
                assert(z_eval_4n@[t] == z_pre[t - n4]);
            }
        }
        assert forall|t: int| 0 <= t < n4 + 4 implies (#[trigger] wl_eval_4n@[t]).wf()
            && wl_eval_4n@[t].val() == wrap_eval(vals(w_l_poly@), gen4, n4, t as nat) by {
            if t < n4 {
                assert(wl_eval_4n@[t] == wl_pre[t]);
            } else {
                assert(wl_eval_4n@[t] == wl_pre[t - n4]);
            }
        }
        assert forall|t: int| 0 <= t < n4 + 4 implies (#[trigger] wr_eval_4n@[t]).wf()
            && wr_eval_4n@[t].val() == wrap_eval(vals(w_r_poly@), gen4, n4, t as nat) by {
            if t < n4 {
                assert(wr_eval_4n@[t] == wr_pre[t]);
            } else {
                assert(wr_eval_4n@[t] == wr_pre[t - n4]);
            }
        }
        assert forall|t: int| 0 <= t < n4 + 4 implies (#[trigger] w4_eval_4n@[t]).wf()
            && w4_eval_4n@[t].val() == wrap_eval(vals(w_4_poly@), gen4, n4, t as nat) by {
            if t < n4 {
                assert(w4_eval_4n@[t] == w4_pre[t]);
            } else {
                assert(w4_eval_4n@[t] == w4_pre[t - n4]);
            }
        }
    }

    let gate_constraints = match compute_gate_constraint_satisfiability::<R, L, FB, CA, K>(
        domain,
        *range_challenge,
        *logic_challenge,
        *fixed_base_challenge,
        *var_base_challenge,
        prover_key,
        &wl_eval_4n,
        &wr_eval_4n,
        &wo_eval_4n,
        &w4_eval_4n,
        public_inputs_poly,
    ) {
        Ok(v) => v,
        Err(e) => {
            return Err(e);
        },
    };

    let permutation = match compute_permutation_checks::<K>(
        domain,
        prover_key,
        &wl_eval_4n,
        &wr_eval_4n,
        &wo_eval_4n,
        &w4_eval_4n,
        &z_eval_4n,
        *alpha,
        *beta,
        *gamma,
    ) {
        Ok(v) => v,
        Err(e) => {
            return Err(e);
        },
    };

    let mut quotient: Vec<Scalar> = Vec::new();
    let mut i: usize = 0;
    while i < n4_usize
        invariant
            i <= n4_usize,
            n4 == n4_usize as nat,
            prover_key.wf(),
            prover_key.ext_size() == n4,
            gate_constraints@.len() == n4,
            permutation@.len() == n4,
            all_wf(gate_constraints@),
            all_wf(permutation@),
            quotient@.len() == i,
            all_wf(quotient@),
            forall|t: int|
                0 <= t < i ==> (#[trigger] quotient@[t]).val() == f_mul(
                    f_add(gate_constraints@[t].val(), permutation@[t].val()),
                    f_inv(prover_key.v_h_spec(t as nat)),
                ),
        decreases n4_usize - i,
    {
        let numerator = scalar_add(&gate_constraints[i], &permutation[i]);
        let denominator = prover_key.v_h_coset_at(i);
        proof {
            prover_key.lemma_v_h_nonzero(i as nat);
            lemma_small_mod_wrap(denominator.val());
        }
        let inverted = match scalar_inverse(&denominator) {
            Some(x) => x,
            None => {
                proof {
                    assert(false);
                }
                scalar_zero()
            },
        };
        proof {
            lemma_f_inv_witness(denominator.val(), inverted.val());
        }
        quotient.push(scalar_mul(&numerator, &inverted));
        i = i + 1;
    }

    let coeffs = domain_coset_ifft(&domain_4n, &quotient);

    proof {
        let ch = QuotientChallenges {
            alpha: alpha.val(),
            beta: beta.val(),
            gamma: gamma.val(),
            range: range_challenge.val(),
            logic: logic_challenge.val(),
            fixed: fixed_base_challenge.val(),
            var: var_base_challenge.val(),
        };
        let values = Seq::new(
            n4,
            |t: int|
                quotient_value::<R, L, FB, CA, K>(
                    *prover_key,
                    domain.size as nat,
                    gen4,
                    n4,
                    vals(z_poly@),
                    vals(w_l_poly@),
                    vals(w_r_poly@),
                    vals(w_o_poly@),
                    vals(w_4_poly@),
                    vals(public_inputs_poly@),
                    ch,
                    t as nat,
                ),
        );
        assert forall|t: int| 0 <= t < n4 implies vals(quotient@)[t] == values[t] by {
            let wl = Seq::new(n4 + 4, |u: int| wrap_eval(vals(w_l_poly@), gen4, n4, u as nat));
            let wr = Seq::new(n4 + 4, |u: int| wrap_eval(vals(w_r_poly@), gen4, n4, u as nat));
            let wo = Seq::new(n4, |u: int| coset_eval(vals(w_o_poly@), gen4, u as nat));
            let w4 = Seq::new(n4 + 4, |u: int| wrap_eval(vals(w_4_poly@), gen4, n4, u as nat));
            let z = Seq::new(n4 + 4, |u: int| wrap_eval(vals(z_poly@), gen4, n4, u as nat));
            assert(vals(wl_eval_4n@) =~= wl);
            assert(vals(wr_eval_4n@) =~= wr);
            assert(vals(wo_eval_4n@) =~= wo);
            assert(vals(w4_eval_4n@) =~= w4);
            assert(vals(z_eval_4n@) =~= z);
            assert(vals(quotient@)[t] == quotient@[t].val());
        }
        assert(vals(quotient@) =~= values);
    }

    Ok(coeffs)
}

/// Evaluates the combined gate identity over the extended coset; a widget
/// whose selector vanishes at a row contributes nothing there.
#[allow(clippy::too_many_arguments)]
fn compute_gate_constraint_satisfiability<
    R: GateConstraint,
    L: GateConstraint,
    FB: GateConstraint,
    CA: GateConstraint,
    K: ProverKey,
>(
    domain: &Domain,
    range_challenge: Scalar,
    logic_challenge: Scalar,
    fixed_base_challenge: Scalar,
    var_base_challenge: Scalar,
    prover_key: &K,
    wl_eval_4n: &Vec<Scalar>,
    wr_eval_4n: &Vec<Scalar>,
    wo_eval_4n: &Vec<Scalar>,
    w4_eval_4n: &Vec<Scalar>,
    pi_poly: &Vec<Scalar>,
) -> (r: Result<Vec<Scalar>, Error>)
    requires
        domain.wf(),
        4 * domain.size <= usize::MAX,
        prover_key.wf(),
        prover_key.ext_size() == 4 * domain.size,
        wl_eval_4n@.len() == 4 * domain.size + 4,
        wr_eval_4n@.len() == 4 * domain.size + 4,
        wo_eval_4n@.len() == 4 * domain.size,
        w4_eval_4n@.len() == 4 * domain.size + 4,
        all_wf(wl_eval_4n@),
        all_wf(wr_eval_4n@),
        all_wf(wo_eval_4n@),
        all_wf(w4_eval_4n@),
        all_wf(pi_poly@),
        pi_poly@.len() <= 4 * domain.size,
        range_challenge.wf(),
        logic_challenge.wf(),
        fixed_base_challenge.wf(),
        var_base_challenge.wf(),
    ensures
        r is Ok <==> 4 * domain.size <= 0x100000000,
        r matches Err(Error::InvalidEvalDomainSize { log_size_of_group, adicity })
            ==> log_size_of_group == spec_trailing_zeros((4 * domain.size) as u64) && adicity
            == TWO_ADICITY,
        r matches Err(e) ==> e matches Error::InvalidEvalDomainSize { .. },
        r matches Ok(v) ==> {
            let n4 = (4 * domain.size) as nat;
            let gen4 = domain_generator(n4);
            &&& v@.len() == n4
            &&& all_wf(v@)
            &&& forall|i: int|
                0 <= i < n4 ==> {
                    let wit = WitnessVals {
                        a: vals(wl_eval_4n@)[i],
                        b: vals(wr_eval_4n@)[i],
                        c: vals(wo_eval_4n@)[i],
                        d: vals(w4_eval_4n@)[i],
                    };
                    let custom = CustomVals {
                        a_next: vals(wl_eval_4n@)[i + 4],
                        b_next: vals(wr_eval_4n@)[i + 4],
                        d_next: vals(w4_eval_4n@)[i + 4],
                        q_l: prover_key.q_l_spec(i as nat),
                        q_r: prover_key.q_r_spec(i as nat),
                        q_c: prover_key.q_c_spec(i as nat),
                    };
                    (#[trigger] v@[i]).val() == f_add(
                        f_add(
                            f_add(
                                f_add(
                                    f_add(
                                        prover_key.arith_term_spec(i as nat, wit),
                                        coset_eval(vals(pi_poly@), gen4, i as nat),
                                    ),
                                    R::term_spec(
                                        prover_key.range_selector_spec(i as nat),
                                        range_challenge.val(),
                                        wit,
                                        custom,
                                    ),
                                ),
                                L::term_spec(
                                    prover_key.logic_selector_spec(i as nat),
                                    logic_challenge.val(),
                                    wit,
                                    custom,
                                ),
                            ),
                            FB::term_spec(
                                prover_key.fixed_base_selector_spec(i as nat),
                                fixed_base_challenge.val(),
                                wit,
                                custom,
                            ),
                        ),
                        CA::term_spec(
                            prover_key.var_base_selector_spec(i as nat),
                            var_base_challenge.val(),
                            wit,
                            custom,
                        ),
                    )
                }
        },
{
    let n4_usize = (4 * domain.size) as usize;
    let domain_4n = match new_domain(n4_usize) {
        Ok(d) => d,
        Err(e) => {
            return Err(e);
        },
    };
    proof {
        lemma_domain_4n_size(domain.size as nat, domain_4n, n4_usize as nat);
    }
    let pi_eval_4n = domain_coset_fft(&domain_4n, pi_poly);

    let mut out: Vec<Scalar> = Vec::new();
    let mut i: usize = 0;
    while i < n4_usize
        invariant
            i <= n4_usize,
            n4_usize == 4 * domain.size,
            domain_4n.wf(),
            domain_4n.size == n4_usize,
            domain_4n.group_gen.val() == domain_generator(n4_usize as nat),
            prover_key.wf(),
            prover_key.ext_size() == n4_usize,
            wl_eval_4n@.len() == n4_usize + 4,
            wr_eval_4n@.len() == n4_usize + 4,
            wo_eval_4n@.len() == n4_usize,
            w4_eval_4n@.len() == n4_usize + 4,
            all_wf(wl_eval_4n@),
            all_wf(wr_eval_4n@),
            all_wf(wo_eval_4n@),
            all_wf(w4_eval_4n@),
            pi_eval_4n@.len() == n4_usize,
            all_wf(pi_eval_4n@),
            forall|t: int|
                0 <= t < n4_usize ==> (#[trigger] pi_eval_4n@[t]).val() == coset_eval(
                    vals(pi_poly@),
                    domain_generator(n4_usize as nat),
                    t as nat,
                ),
            range_challenge.wf(),
            logic_challenge.wf(),
            fixed_base_challenge.wf(),
            var_base_challenge.wf(),
            out@.len() == i,
            all_wf(out@),
            forall|t: int|
                0 <= t < i ==> {
                    let wit = WitnessVals {
                        a: vals(wl_eval_4n@)[t],
                        b: vals(wr_eval_4n@)[t],
                        c: vals(wo_eval_4n@)[t],
                        d: vals(w4_eval_4n@)[t],
                    };
                    let custom = CustomVals {
                        a_next: vals(wl_eval_4n@)[t + 4],
                        b_next: vals(wr_eval_4n@)[t + 4],
                        d_next: vals(w4_eval_4n@)[t + 4],
                        q_l: prover_key.q_l_spec(t as nat),
                        q_r: prover_key.q_r_spec(t as nat),
                        q_c: prover_key.q_c_spec(t as nat),
                    };
                    (#[trigger] out@[t]).val() == f_add(
                        f_add(
                            f_add(
                                f_add(
                                    f_add(
                                        prover_key.arith_term_spec(t as nat, wit),
                                        coset_eval(
                                            vals(pi_poly@),
                                            domain_generator(n4_usize as nat),
                                            t as nat,
                                        ),
                                    ),
                                    R::term_spec(
                                        prover_key.range_selector_spec(t as nat),
                                        range_challenge.val(),
                                        wit,
                                        custom,
                                    ),
                                ),
                                L::term_spec(
                                    prover_key.logic_selector_spec(t as nat),
                                    logic_challenge.val(),
                                    wit,
                                    custom,
                                ),
                            ),
                            FB::term_spec(
                                prover_key.fixed_base_selector_spec(t as nat),
                                fixed_base_challenge.val(),
                                wit,
                                custom,
                            ),
                        ),
                        CA::term_spec(
                            prover_key.var_base_selector_spec(t as nat),
                            var_base_challenge.val(),
                            wit,
                            custom,
                        ),
                    )
                },
        decreases n4_usize - i,
    {
        let wit_vals = WitnessValues {
            a_val: wl_eval_4n[i],
            b_val: wr_eval_4n[i],
            c_val: wo_eval_4n[i],
            d_val: w4_eval_4n[i],
        };

        let custom_vals = CustomEvaluations {
            a_next_eval: wl_eval_4n[i + 4],
            b_next_eval: wr_eval_4n[i + 4],
            d_next_eval: w4_eval_4n[i + 4],
            q_l_eval: prover_key.q_l_at(i),
            q_r_eval: prover_key.q_r_at(i),
            q_c_eval: prover_key.q_c_at(i),
        };

        let arithmetic = prover_key.arith_quotient_term(i, &wit_vals);

        let range_sel = prover_key.range_selector_at(i);
        let range = R::quotient_term(&range_sel, &range_challenge, &wit_vals, &custom_vals);

        let logic_sel = prover_key.logic_selector_at(i);
        let logic = L::quotient_term(&logic_sel, &logic_challenge, &wit_vals, &custom_vals);

        let fixed_sel = prover_key.fixed_base_selector_at(i);
        let fixed_base_scalar_mul = FB::quotient_term(
            &fixed_sel,
            &fixed_base_challenge,
            &wit_vals,
            &custom_vals,
        );

        let var_sel = prover_key.var_base_selector_at(i);
        let curve_addition = CA::quotient_term(
            &var_sel,
            &var_base_challenge,
            &wit_vals,
            &custom_vals,
        );

        let sum = scalar_add(
            &scalar_add(
                &scalar_add(
                    &scalar_add(&scalar_add(&arithmetic, &pi_eval_4n[i]), &range),
                    &logic,
                ),
                &fixed_base_scalar_mul,
            ),
            &curve_addition,
        );
        out.push(sum);
        i = i + 1;
    }
    Ok(out)
}

/// Computes the permutation contribution over the extended coset: the
/// grand-product recurrence term scaled by `alpha` plus the boundary term
/// using the first Lagrange polynomial scaled by `alpha²`.
#[allow(clippy::too_many_arguments)]
fn compute_permutation_checks<K: ProverKey>(
    domain: &Domain,
    prover_key: &K,
    wl_eval_4n: &Vec<Scalar>,
    wr_eval_4n: &Vec<Scalar>,
    wo_eval_4n: &Vec<Scalar>,
    w4_eval_4n: &Vec<Scalar>,
    z_eval_4n: &Vec<Scalar>,
    alpha: Scalar,
    beta: Scalar,
    gamma: Scalar,
) -> (r: Result<Vec<Scalar>, Error>)
    requires
        domain.wf(),
        4 * domain.size <= usize::MAX,
        prover_key.wf(),
        prover_key.ext_size() == 4 * domain.size,
        wl_eval_4n@.len() == 4 * domain.size + 4,
        wr_eval_4n@.len() == 4 * domain.size + 4,
        wo_eval_4n@.len() == 4 * domain.size,
        w4_eval_4n@.len() == 4 * domain.size + 4,
        z_eval_4n@.len() == 4 * domain.size + 4,
        all_wf(wl_eval_4n@),
        all_wf(wr_eval_4n@),
        all_wf(wo_eval_4n@),
        all_wf(w4_eval_4n@),
        all_wf(z_eval_4n@),
        alpha.wf(),
        beta.wf(),
        gamma.wf(),
    ensures
        r is Ok <==> 4 * domain.size <= 0x100000000,
        r matches Err(Error::InvalidEvalDomainSize { log_size_of_group, adicity })
            ==> log_size_of_group == spec_trailing_zeros((4 * domain.size) as u64) && adicity
            == TWO_ADICITY,
        r matches Err(e) ==> e matches Error::InvalidEvalDomainSize { .. },
        r matches Ok(v) ==> {
            let n4 = (4 * domain.size) as nat;
            let gen4 = domain_generator(n4);
            &&& v@.len() == n4
            &&& all_wf(v@)
            &&& forall|i: int|
                0 <= i < n4 ==> (#[trigger] v@[i]).val() == prover_key.perm_term_spec(
                    i as nat,
                    vals(wl_eval_4n@)[i],
                    vals(wr_eval_4n@)[i],
                    vals(wo_eval_4n@)[i],
                    vals(w4_eval_4n@)[i],
                    vals(z_eval_4n@)[i],
                    vals(z_eval_4n@)[i + 4],
                    alpha.val(),
                    coset_eval(
                        l1_scaled_coeffs(domain.size as nat, alpha.val()),
                        gen4,
                        i as nat,
                    ),
                    beta.val(),
                    gamma.val(),
                )
        },
{
    let n4_usize = (4 * domain.size) as usize;
    let domain_4n = match new_domain(n4_usize) {
        Ok(d) => d,
        Err(e) => {
            return Err(e);
        },
    };
    proof {
        lemma_domain_4n_size(domain.size as nat, domain_4n, n4_usize as nat);
    }

    let alpha_sq = scalar_mul(&alpha, &alpha);
    let l1_poly_alpha = compute_first_lagrange_poly_scaled(domain, &alpha_sq);
    let l1_alpha_sq_evals = domain_coset_fft(&domain_4n, &l1_poly_alpha);

    proof {
        assert(vals(l1_poly_alpha@) == l1_scaled_coeffs(domain.size as nat, alpha.val()));
    }

    let mut out: Vec<Scalar> = Vec::new();
    let mut i: usize = 0;
    while i < n4_usize
        invariant
            i <= n4_usize,
            n4_usize == 4 * domain.size,
            prover_key.wf(),
            prover_key.ext_size() == n4_usize,
            wl_eval_4n@.len() == n4_usize + 4,
            wr_eval_4n@.len() == n4_usize + 4,
            wo_eval_4n@.len() == n4_usize,
            w4_eval_4n@.len() == n4_usize + 4,
            z_eval_4n@.len() == n4_usize + 4,
            all_wf(wl_eval_4n@),
            all_wf(wr_eval_4n@),
            all_wf(wo_eval_4n@),
            all_wf(w4_eval_4n@),
            all_wf(z_eval_4n@),
            alpha.wf(),
            beta.wf(),
            gamma.wf(),
            l1_alpha_sq_evals@.len() == n4_usize,
            all_wf(l1_alpha_sq_evals@),
            forall|t: int|
                0 <= t < n4_usize ==> (#[trigger] l1_alpha_sq_evals@[t]).val() == coset_eval(
                    l1_scaled_coeffs(domain.size as nat, alpha.val()),
                    domain_generator(n4_usize as nat),
                    t as nat,
                ),
            out@.len() == i,
            all_wf(out@),
            forall|t: int|
                0 <= t < i ==> (#[trigger] out@[t]).val() == prover_key.perm_term_spec(
                    t as nat,
                    vals(wl_eval_4n@)[t],
                    vals(wr_eval_4n@)[t],
                    vals(wo_eval_4n@)[t],
                    vals(w4_eval_4n@)[t],
                    vals(z_eval_4n@)[t],
                    vals(z_eval_4n@)[t + 4],
                    alpha.val(),
                    coset_eval(
                        l1_scaled_coeffs(domain.size as nat, alpha.val()),
                        domain_generator(n4_usize as nat),
                        t as nat,
                    ),
                    beta.val(),
                    gamma.val(),
                ),
        decreases n4_usize - i,
    {
        let term = prover_key.perm_quotient_term(
            i,
            &wl_eval_4n[i],
            &wr_eval_4n[i],
            &wo_eval_4n[i],
            &w4_eval_4n[i],
            &z_eval_4n[i],
            &z_eval_4n[i + 4],
            &alpha,
            &l1_alpha_sq_evals[i],
            &beta,
            &gamma,
        );
        out.push(term);
        i = i + 1;
    }
    Ok(out)
}

/// Builds the first Lagrange polynomial scaled by `scale`, as coefficients:
/// the inverse transform of the evaluation vector `(scale, 0, …, 0)`.
pub fn compute_first_lagrange_poly_scaled(domain: &Domain, scale: &Scalar) -> (r: Vec<Scalar>)
    requires
        domain.wf(),
        domain.size <= usize::MAX,
        scale.wf(),
    ensures
        r@.len() == domain.size,
        all_wf(r@),
        vals(r@) == ifft_of(
            Seq::new(domain.size as nat, |j: int| if j == 0 { scale.val() } else { 0nat }),
        ),
        forall|j: int|
            0 <= j < domain.size ==> #[trigger] poly_eval(
                vals(r@),
                crate::field::f_pow(domain.group_gen.val(), j as nat),
            ) == if j == 0 {
                scale.val()
            } else {
                0nat
            },
{
    let n_usize = domain.size as usize;
    let mut x_evals: Vec<Scalar> = Vec::new();
    x_evals.push(*scale);
    let mut i: usize = 1;
    while i < n_usize
        invariant
            1 <= i <= n_usize,
            scale.wf(),
            x_evals@.len() == i,
            x_evals@[0] == *scale,
            forall|t: int| 1 <= t < i ==> (#[trigger] x_evals@[t]).val() == 0,
            forall|t: int| 0 <= t < i ==> (#[trigger] x_evals@[t]).wf(),
        decreases n_usize - i,
    {
        x_evals.push(scalar_zero());
        i = i + 1;
    }
    proof {
        assert(vals(x_evals@) =~= Seq::new(
            domain.size as nat,
            |j: int| if j == 0 { scale.val() } else { 0nat },
        ));
    }
    let result = domain_ifft(domain, &x_evals);
    proof {
        assert forall|j: int|
            0 <= j < domain.size implies #[trigger] poly_eval(
            vals(result@),
            crate::field::f_pow(domain.group_gen.val(), j as nat),
        ) == (if j == 0 {
            scale.val()
        } else {
            0nat
        }) by {
            assert(poly_eval(vals(result@), crate::field::f_pow(domain.group_gen.val(), j as nat))
                == x_evals@[j].val());
        }
    }
    result
}

} // verus!
