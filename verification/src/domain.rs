//! Radix-2 evaluation domains and the (coset) transforms over them.
//!
//! A domain of size `n` (a power of two, at most `2^32` for this field) is
//! carried as plain values: its size, its generator — a primitive `n`-th root
//! of unity — and the precomputed inverses the protocol reads.  The FFTs
//! themselves are delegated to `ark_poly` behind trusted wrappers whose
//! contracts state which polynomial evaluations come back, via the Horner
//! evaluation `poly_eval`.

use vstd::prelude::*;
use crate::field::{
    all_wf, f_mul, f_pow, f_sub, fr_order, scalar_one, scalar_pow, scalar_sub, vals, Scalar,
};
use crate::Error;
use ark_ff::PrimeField;
use ark_poly::EvaluationDomain;
use ark_bls12_381::Fr;

verus! {

/// Two-adicity of the scalar field: its multiplicative group contains a
/// cyclic subgroup of order `2^32` and no larger power of two.
pub const TWO_ADICITY: u32 = 32;

/// A power of two.
pub open spec fn is_pow2(s: nat) -> bool
    decreases s,
{
    if s == 0 {
        false
    } else if s == 1 {
        true
    } else {
        s % 2 == 0 && is_pow2(s / 2)
    }
}

/// The generator that `ark_poly` deterministically assigns to the radix-2
/// domain of a given size: a primitive root of unity of that order.
pub uninterp spec fn domain_generator(size: nat) -> nat;

/// The size of the domain built for a coefficient count: the count rounded
/// up to a power of two, and one for an empty polynomial.
pub open spec fn domain_size_for(num_coeffs: nat) -> nat
    decreases num_coeffs,
{
    if num_coeffs <= 1 {
        1nat
    } else {
        2 * domain_size_for((num_coeffs + 1) / 2)
    }
}

/// The number of trailing zero bits of a machine integer; 64 for zero.
pub open spec fn spec_trailing_zeros(x: u64) -> nat
    decreases x,
{
    if x == 0 {
        64nat
    } else if x % 2 == 1 {
        0nat
    } else {
        1 + spec_trailing_zeros((x / 2) as u64)
    }
}

/// A non-zero 64-bit integer has at most 63 trailing zeros.
proof fn lemma_trailing_zeros_bound(x: u64, k: nat)
    requires
        1 <= x < vstd::arithmetic::power2::pow2(k),
    ensures
        spec_trailing_zeros(x) < k,
    decreases k,
{
    if x % 2 == 1 {
        if k == 0 {
            vstd::arithmetic::power2::lemma2_to64();
        }
    } else {
        vstd::arithmetic::power2::lemma2_to64();
        assert(k >= 1);
        assert(vstd::arithmetic::power2::pow2(k) == 2 * vstd::arithmetic::power2::pow2(
            (k - 1) as nat,
        )) by {
            vstd::arithmetic::power2::lemma_pow2_unfold(k);
        }
        lemma_trailing_zeros_bound((x / 2) as u64, (k - 1) as nat);
    }
}

/// A radix-2 evaluation domain of the scalar field, as plain values.
#[derive(Clone, Copy, PartialEq, Eq, Structural, Debug)]
pub struct Domain {
    /// Domain size: a power of two, at most `2^32`.
    pub size: u64,
    /// Generator of the subgroup of order `size`.
    pub group_gen: Scalar,
    /// Inverse of the generator.
    pub group_gen_inv: Scalar,
    /// Inverse of the size as a field element.
    pub size_inv: Scalar,
}

impl Domain {
    pub open spec fn wf(self) -> bool {
        &&& 1 <= self.size <= 0x100000000u64
        &&& is_pow2(self.size as nat)
        &&& self.group_gen.wf()
        &&& self.group_gen_inv.wf()
        &&& self.size_inv.wf()
        &&& self.group_gen.val() == domain_generator(self.size as nat)
        &&& f_pow(self.group_gen.val(), self.size as nat) == 1
        &&& f_mul(self.group_gen.val(), self.group_gen_inv.val()) == 1
        &&& f_mul(self.size as nat, self.size_inv.val()) == 1
    }
}

/// Builds the radix-2 domain large enough for `num_coeffs` coefficients.
/// Relies on `ark_poly::Radix2EvaluationDomain::new`: within the field's
/// two-adicity (which the `requires` guarantees) the construction succeeds,
/// its size is `num_coeffs` rounded up to a power of two, and its generator
/// is the field's canonical root of unity of that order.
#[verifier::external_body]
fn radix2_domain_new(num_coeffs: usize) -> (r: Domain)
    requires
        num_coeffs <= 0x100000000,
    ensures
        r.wf(),
        r.size == domain_size_for(num_coeffs as nat),
        num_coeffs <= r.size,
        r.size == 1 || (r.size as nat) / 2 < num_coeffs,
        r.group_gen.val() == domain_generator(r.size as nat),
{
    let dom = ark_poly::Radix2EvaluationDomain::<Fr>::new(num_coeffs).unwrap();
    let gg = dom.group_gen.into_repr().0;
    let gi = dom.group_gen_inv.into_repr().0;
    let si = dom.size_inv.into_repr().0;
    Domain {
        size: dom.size,
        group_gen: Scalar { l0: gg[0], l1: gg[1], l2: gg[2], l3: gg[3] },
        group_gen_inv: Scalar { l0: gi[0], l1: gi[1], l2: gi[2], l3: gi[3] },
        size_inv: Scalar { l0: si[0], l1: si[1], l2: si[2], l3: si[3] },
    }
}

/// Counts the trailing zero bits of a machine integer, for error reports.
pub fn trailing_zeros_u64(x: u64) -> (r: u32)
    ensures
        r as nat == spec_trailing_zeros(x),
{
    proof {
        vstd::arithmetic::power2::lemma2_to64();
        vstd::arithmetic::power2::lemma2_to64_rest();
        if x >= 1 {
            lemma_trailing_zeros_bound(x, 64);
        }
    }
    let mut v = x;
    let mut c: u32 = 0;
    while v % 2 == 0 && c < 64
        invariant
            c <= 64,
            x == 0 ==> v == 0,
            x >= 1 ==> v >= 1 && spec_trailing_zeros(x) == c + spec_trailing_zeros(v)
                && spec_trailing_zeros(x) <= 63,
        decreases 64 - c,
    {
        proof {
            if x >= 1 {
                assert(spec_trailing_zeros(v) == 1 + spec_trailing_zeros((v / 2) as u64));
            }
        }
        v = v / 2;
        c = c + 1;
    }
    c
}

/// Builds the evaluation domain for `num_coeffs` coefficients, or reports —
/// with the offending size's trailing-zero count and the field's two-adicity
/// — that the size cannot be represented in the field's two-power subgroup.
pub fn new_domain(num_coeffs: usize) -> (r: Result<Domain, Error>)
    ensures
        r is Ok <==> num_coeffs <= 0x100000000,
        r matches Ok(d) ==> d.wf() && d.size == domain_size_for(num_coeffs as nat) && num_coeffs
            <= d.size && (d.size == 1 || (d.size as nat) / 2 < num_coeffs),
        r matches Err(e) ==> e matches Error::InvalidEvalDomainSize { log_size_of_group, adicity }
            && log_size_of_group == spec_trailing_zeros(num_coeffs as u64) && adicity
            == TWO_ADICITY,
{
    if num_coeffs as u64 > 0x100000000u64 {
        Err(
            Error::InvalidEvalDomainSize {
                log_size_of_group: trailing_zeros_u64(num_coeffs as u64),
                adicity: TWO_ADICITY,
            },
        )
    } else {
        Ok(radix2_domain_new(num_coeffs))
    }
}

/// Doubling preserves being a power of two.
pub proof fn lemma_pow2_double(s: nat)
    requires
        is_pow2(s),
    ensures
        is_pow2(2 * s),
{
    assert(s >= 1);
    assert((2 * s) % 2 == 0);
    assert((2 * s) / 2 == s);
}

/// Distinct powers of two are at least a factor of two apart.
pub proof fn lemma_pow2_strict(a: nat, b: nat)
    requires
        is_pow2(a),
        is_pow2(b),
        a < b,
    ensures
        2 * a <= b,
    decreases b,
{
    if a == 1 {
        assert(b % 2 == 0 && is_pow2(b / 2));
    } else {
        assert(a % 2 == 0 && is_pow2(a / 2));
        assert(b % 2 == 0 && is_pow2(b / 2));
        lemma_pow2_strict(a / 2, b / 2);
    }
}

/// Horner evaluation of a coefficient sequence at a point, in the field.
pub open spec fn poly_eval(coeffs: Seq<nat>, x: nat) -> nat
    decreases coeffs.len(),
{
    if coeffs.len() == 0 {
        0nat
    } else {
        crate::field::f_add(coeffs[0], f_mul(x, poly_eval(coeffs.subrange(1, coeffs.len() as int), x)))
    }
}

/// The multiplicative generator of the scalar field, which shifts the domain
/// onto the coset used for quotient evaluation.
pub open spec fn coset_shift() -> nat {
    7
}

/// The `i`-th point of the coset: `7 · gen^i`.
pub open spec fn coset_point(gen: nat, i: nat) -> nat {
    f_mul(coset_shift(), f_pow(gen, i))
}

/// Coefficients that `ark_poly`'s inverse transform assigns to a vector of
/// evaluations over the domain of that size.
pub uninterp spec fn ifft_of(evals: Seq<nat>) -> Seq<nat>;

/// Coefficients that `ark_poly`'s inverse coset transform assigns to a vector
/// of evaluations over the coset of the domain of that size.
pub uninterp spec fn coset_ifft_of(evals: Seq<nat>) -> Seq<nat>;

/// Forward coset transform.  Relies on `ark_poly`'s `coset_fft`: entry `i` of
/// the result is the polynomial with the given coefficients evaluated at
/// `7 · gen^i`.
#[verifier::external_body]
pub fn domain_coset_fft(domain: &Domain, coeffs: &Vec<Scalar>) -> (r: Vec<Scalar>)
    requires
        domain.wf(),
        all_wf(coeffs@),
        coeffs@.len() <= domain.size,
    ensures
        r@.len() == domain.size,
        all_wf(r@),
        forall|i: int|
            0 <= i < r@.len() ==> (#[trigger] r@[i]).val() == poly_eval(
                vals(coeffs@),
                coset_point(domain.group_gen.val(), i as nat),
            ),
{
    let dom = ark_poly::Radix2EvaluationDomain::<Fr>::new(domain.size as usize).unwrap();
    let elems: Vec<Fr> = coeffs
        .iter()
        .map(|s| Fr::from_repr(ark_ff::BigInteger256::new([s.l0, s.l1, s.l2, s.l3])).unwrap())
        .collect();
    dom.coset_fft(&elems)
        .iter()
        .map(|x| {
            let z = x.into_repr().0;
            Scalar { l0: z[0], l1: z[1], l2: z[2], l3: z[3] }
        })
        .collect()
}

/// Inverse coset transform.  Relies on `ark_poly`'s `coset_ifft`: the result
/// is the coefficient vector of the polynomial of degree below the domain
/// size taking the given values on the coset.
#[verifier::external_body]
pub fn domain_coset_ifft(domain: &Domain, evals: &Vec<Scalar>) -> (r: Vec<Scalar>)
    requires
        domain.wf(),
        all_wf(evals@),
        evals@.len() == domain.size,
    ensures
        r@.len() == domain.size,
        all_wf(r@),
        vals(r@) == coset_ifft_of(vals(evals@)),
        forall|i: int|
            0 <= i < evals@.len() ==> poly_eval(
                vals(r@),
                coset_point(domain.group_gen.val(), i as nat),
            ) == (#[trigger] evals@[i]).val(),
{
    let dom = ark_poly::Radix2EvaluationDomain::<Fr>::new(domain.size as usize).unwrap();
    let elems: Vec<Fr> = evals
        .iter()
        .map(|s| Fr::from_repr(ark_ff::BigInteger256::new([s.l0, s.l1, s.l2, s.l3])).unwrap())
        .collect();
    dom.coset_ifft(&elems)
        .iter()
        .map(|x| {
            let z = x.into_repr().0;
            Scalar { l0: z[0], l1: z[1], l2: z[2], l3: z[3] }
        })
        .collect()
}

/// Inverse transform over the domain itself.  Relies on `ark_poly`'s `ifft`:
/// the result is the coefficient vector of the polynomial of degree below the
/// domain size taking the given values at the powers of the generator.
#[verifier::external_body]
pub fn domain_ifft(domain: &Domain, evals: &Vec<Scalar>) -> (r: Vec<Scalar>)
    requires
        domain.wf(),
        all_wf(evals@),
        evals@.len() == domain.size,
    ensures
        r@.len() == domain.size,
        all_wf(r@),
        vals(r@) == ifft_of(vals(evals@)),
        forall|i: int|
            0 <= i < evals@.len() ==> poly_eval(vals(r@), f_pow(domain.group_gen.val(), i as nat))
                == (#[trigger] evals@[i]).val(),
{
    let dom = ark_poly::Radix2EvaluationDomain::<Fr>::new(domain.size as usize).unwrap();
    let elems: Vec<Fr> = evals
        .iter()
        .map(|s| Fr::from_repr(ark_ff::BigInteger256::new([s.l0, s.l1, s.l2, s.l3])).unwrap())
        .collect();
    dom.ifft(&elems)
        .iter()
        .map(|x| {
            let z = x.into_repr().0;
            Scalar { l0: z[0], l1: z[1], l2: z[2], l3: z[3] }
        })
        .collect()
}

/// Evaluates the vanishing polynomial `X^n - 1` of the domain at a point.
pub fn evaluate_vanishing_polynomial(domain: &Domain, tau: &Scalar) -> (r: Scalar)
    requires
        domain.wf(),
        tau.wf(),
    ensures
        r.wf(),
        r.val() == f_sub(f_pow(tau.val(), domain.size as nat), 1),
{
    let p = scalar_pow(tau, domain.size);
    let one = scalar_one();
    scalar_sub(&p, &one)
}

/// The `i`-th element `gen^i` of the domain.
pub fn domain_element(domain: &Domain, i: u64) -> (r: Scalar)
    requires
        domain.wf(),
    ensures
        r.wf(),
        r.val() == f_pow(domain.group_gen.val(), i as nat),
{
    scalar_pow(&domain.group_gen, i)
}

} // verus!
