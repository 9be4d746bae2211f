//! Scalar-field layer.
//!
//! The protocol works over the scalar field of BLS12-381, a prime field of
//! order `fr_order()`.  A field element is carried as its canonical integer
//! representative, split into four 64-bit limbs, so that every contract can
//! speak of the element's value as a mathematical integer.  The modular
//! arithmetic itself is delegated to `ark_ff`; each delegated operation is a
//! trusted wrapper whose contract states the result as arithmetic modulo
//! `fr_order()`.

use vstd::prelude::*;
use vstd::arithmetic::div_mod::{
    lemma_mod_bound, lemma_mul_mod_noop_left, lemma_mul_mod_noop_right, lemma_small_mod,
};
use vstd::arithmetic::div_mod::lemma_fundamental_div_mod_converse;
use vstd::arithmetic::mul::lemma_mul_is_associative;
use ark_ff::{BigInteger256, Field, PrimeField};
use ark_bls12_381::Fr;

verus! {

/// Order of the scalar field of BLS12-381.
pub open spec fn fr_order() -> nat {
    0x73eda753299d7d483339d80809a1d80553bda402fffe5bfeffffffff00000001nat
}

/// Little-endian limbs of `fr_order()`.
pub const FR_MODULUS_LIMB_0: u64 = 0xffffffff00000001;
pub const FR_MODULUS_LIMB_1: u64 = 0x53bda402fffe5bfe;
pub const FR_MODULUS_LIMB_2: u64 = 0x3339d80809a1d805;
pub const FR_MODULUS_LIMB_3: u64 = 0x73eda753299d7d48;

/// A scalar-field element, stored as the four little-endian 64-bit limbs of
/// its canonical (fully reduced) integer representative.
#[derive(Clone, Copy, PartialEq, Eq, Structural, Debug)]
pub struct Scalar {
    pub l0: u64,
    pub l1: u64,
    pub l2: u64,
    pub l3: u64,
}

impl Scalar {
    /// The integer value carried by the limbs.
    pub open spec fn val(self) -> nat {
        self.l0 as nat
            + self.l1 as nat * 0x10000000000000000nat
            + self.l2 as nat * 0x100000000000000000000000000000000nat
            + self.l3 as nat * 0x1000000000000000000000000000000000000000000000000nat
    }

    /// A well-formed scalar is fully reduced.
    pub open spec fn wf(self) -> bool {
        self.val() < fr_order()
    }
}

/// The scalar whose limbs are the base-2^64 digits of a value.  For any
/// scalar this inverts `val()`, so a reduced value pins the whole scalar.
#[verifier::opaque]
pub open spec fn scalar_of_nat(v: nat) -> Scalar {
    Scalar {
        l0: (v % 0x10000000000000000nat) as u64,
        l1: ((v / 0x10000000000000000nat) % 0x10000000000000000nat) as u64,
        l2: ((v / 0x100000000000000000000000000000000nat) % 0x10000000000000000nat) as u64,
        l3: ((v / 0x1000000000000000000000000000000000000000000000000nat)
            % 0x10000000000000000nat) as u64,
    }
}

/// The limbs of a scalar are exactly the base-2^64 digits of its value.
pub proof fn lemma_scalar_of_nat_val(s: Scalar)
    ensures
        scalar_of_nat(s.val()) == s,
{
    reveal(scalar_of_nat);
    let t: int = 0x10000000000000000int;
    let v = s.val() as int;
    let u1 = s.l1 + s.l2 * t + s.l3 * (t * t);
    let u2 = s.l2 + s.l3 * t;
    lemma_fundamental_div_mod_converse(v, t, u1, s.l0 as int);
    lemma_fundamental_div_mod_converse(u1, t, u2, s.l1 as int);
    lemma_fundamental_div_mod_converse(u2, t, s.l3 as int, s.l2 as int);
    lemma_fundamental_div_mod_converse(s.l3 as int, t, 0, s.l3 as int);
    vstd::arithmetic::div_mod::lemma_div_denominator(v, t, t);
    vstd::arithmetic::div_mod::lemma_div_denominator(v, t * t, t);
    assert(v / (t * t) == u2) by {
        vstd::arithmetic::div_mod::lemma_div_denominator(v, t, t);
    }
    assert(0x10000000000000000int * 0x10000000000000000int
        == 0x100000000000000000000000000000000int) by (nonlinear_arith);
    assert(0x100000000000000000000000000000000int * 0x10000000000000000int
        == 0x1000000000000000000000000000000000000000000000000int) by (nonlinear_arith);
    assert(t * t == 0x100000000000000000000000000000000int);
    assert((t * t) * t == 0x1000000000000000000000000000000000000000000000000int);
    assert(v / 0x1000000000000000000000000000000000000000000000000int == s.l3 as int) by {
        vstd::arithmetic::div_mod::lemma_div_denominator(v, t * t, t);
    }
}

/// Two scalars are equal exactly when their values are.
pub proof fn lemma_scalar_eq_iff_val(a: Scalar, b: Scalar)
    ensures
        a == b <==> a.val() == b.val(),
{
    lemma_scalar_of_nat_val(a);
    lemma_scalar_of_nat_val(b);
}

/// Values of a sequence of scalars.
pub open spec fn vals(s: Seq<Scalar>) -> Seq<nat> {
    s.map_values(|x: Scalar| x.val())
}

/// Every element of the sequence is reduced.
pub open spec fn all_wf(s: Seq<Scalar>) -> bool {
    forall|i: int| 0 <= i < s.len() ==> (#[trigger] s[i]).wf()
}

/// Field addition on integer representatives.
pub open spec fn f_add(a: nat, b: nat) -> nat {
    (a + b) % fr_order()
}

/// Field subtraction on integer representatives.
pub open spec fn f_sub(a: nat, b: nat) -> nat {
    ((a % fr_order() + fr_order() - b % fr_order()) as nat) % fr_order()
}

/// Field negation on integer representatives.
pub open spec fn f_neg(a: nat) -> nat {
    (((fr_order() - a % fr_order()) as nat) % fr_order()) as nat
}

/// Field multiplication on integer representatives.
pub open spec fn f_mul(a: nat, b: nat) -> nat {
    (a * b) % fr_order()
}

/// Field exponentiation on integer representatives.
pub open spec fn f_pow(b: nat, e: nat) -> nat
    decreases e,
{
    if e == 0 {
        1nat
    } else {
        f_mul(b, f_pow(b, (e - 1) as nat))
    }
}

/// Multiplicative inverse on integer representatives; zero maps to zero,
/// matching the convention that a skipped batch-inversion entry stays zero.
pub open spec fn f_inv(a: nat) -> nat {
    if a % fr_order() == 0 {
        0nat
    } else {
        choose|b: nat| b < fr_order() && #[trigger] f_mul(a, b) == 1
    }
}

pub proof fn lemma_f_mul_comm(a: nat, b: nat)
    ensures
        f_mul(a, b) == f_mul(b, a),
{
}

pub proof fn lemma_f_mul_assoc(a: nat, b: nat, c: nat)
    ensures
        f_mul(f_mul(a, b), c) == f_mul(a, f_mul(b, c)),
{
    let q = fr_order() as int;
    lemma_mul_mod_noop_left((a * b) as int, c as int, q);
    lemma_mul_mod_noop_right(a as int, (b * c) as int, q);
    lemma_mul_is_associative(a as int, b as int, c as int);
}

pub proof fn lemma_f_mul_one(a: nat)
    requires
        a < fr_order(),
    ensures
        f_mul(1, a) == a,
        f_mul(a, 1) == a,
{
    lemma_small_mod(a, fr_order());
}

pub proof fn lemma_f_mul_reduce(a: nat, b: nat)
    ensures
        f_mul(a % fr_order(), b) == f_mul(a, b),
        f_mul(a, b % fr_order()) == f_mul(a, b),
{
    let q = fr_order() as int;
    lemma_mul_mod_noop_left(a as int, b as int, q);
    lemma_mul_mod_noop_right(a as int, b as int, q);
}

/// A reduced value is its own remainder.
pub proof fn lemma_small_mod_wrap(a: nat)
    requires
        a < fr_order(),
    ensures
        a % fr_order() == a,
{
    lemma_small_mod(a, fr_order());
}

pub proof fn lemma_f_mul_zero(b: nat)
    ensures
        f_mul(0, b) == 0,
        f_mul(b, 0) == 0,
{
    lemma_small_mod(0, fr_order());
}

pub proof fn lemma_f_pow_bound(b: nat, e: nat)
    ensures
        f_pow(b, e) < fr_order(),
    decreases e,
{
    if e == 0 {
    } else {
        lemma_mod_bound((b * f_pow(b, (e - 1) as nat)) as int, fr_order() as int);
    }
}

/// `b^(2m) = (b*b)^m`.
pub proof fn lemma_f_pow_double(b: nat, m: nat)
    ensures
        f_pow(b, 2 * m) == f_pow(f_mul(b, b), m),
    decreases m,
{
    if m == 0 {
    } else {
        lemma_f_pow_double(b, (m - 1) as nat);
        assert(2 * m == 2 * (m - 1) + 2);
        assert(f_pow(b, 2 * m) == f_mul(b, f_pow(b, (2 * m - 1) as nat)));
        assert(f_pow(b, (2 * m - 1) as nat) == f_mul(b, f_pow(b, (2 * (m - 1)) as nat)));
        lemma_f_mul_assoc(b, b, f_pow(b, (2 * (m - 1)) as nat));
        lemma_f_mul_reduce(b * b, f_pow(f_mul(b, b), (m - 1) as nat));
        assert(f_pow(f_mul(b, b), m) == f_mul(f_mul(b, b), f_pow(f_mul(b, b), (m - 1) as nat)));
    }
}

/// Any concrete witness of invertibility pins down `f_inv`.
pub proof fn lemma_f_inv_witness(a: nat, b: nat)
    requires
        b < fr_order(),
        f_mul(a, b) == 1,
    ensures
        a % fr_order() != 0,
        f_inv(a) == b,
{
    let q = fr_order();
    if a % q == 0 {
        lemma_mul_mod_noop_left(a as int, b as int, q as int);
        assert((a % q) * b == 0);
        assert(f_mul(a, b) == 0nat % q);
        lemma_small_mod(0, q);
    }
    assert(b < q && f_mul(a, b) == 1);
    let c = f_inv(a);
    assert(c < q && f_mul(a, c) == 1) by {
        assert(exists|x: nat| x < q && #[trigger] f_mul(a, x) == 1);
    }
    // b == b*(a*c) == (b*a)*c == (a*b)*c == 1*c == c
    lemma_f_mul_one(b);
    assert(f_mul(b, f_mul(a, c)) == b);
    lemma_f_mul_assoc(b, a, c);
    lemma_f_mul_comm(b, a);
    lemma_f_mul_reduce(a * b, c);
    lemma_f_mul_one(c);
}

/// The zero scalar.
pub fn scalar_zero() -> (r: Scalar)
    ensures
        r.wf(),
        r.val() == 0,
{
    Scalar { l0: 0, l1: 0, l2: 0, l3: 0 }
}

/// The unit scalar.
pub fn scalar_one() -> (r: Scalar)
    ensures
        r.wf(),
        r.val() == 1,
{
    Scalar { l0: 1, l1: 0, l2: 0, l3: 0 }
}

/// Embeds a machine integer into the field.
pub fn scalar_from_u64(x: u64) -> (r: Scalar)
    ensures
        r.wf(),
        r.val() == x,
{
    Scalar { l0: x, l1: 0, l2: 0, l3: 0 }
}

/// Tests for the zero element.
pub fn scalar_is_zero(a: &Scalar) -> (r: bool)
    ensures
        r <==> a.val() == 0,
{
    a.l0 == 0 && a.l1 == 0 && a.l2 == 0 && a.l3 == 0
}

/// Whether four little-endian limbs encode a fully reduced representative.
pub fn limbs_are_canonical(l0: u64, l1: u64, l2: u64, l3: u64) -> (r: bool)
    ensures
        r <==> (Scalar { l0, l1, l2, l3 }).wf(),
{
    let r = if l3 != FR_MODULUS_LIMB_3 {
        l3 < FR_MODULUS_LIMB_3
    } else if l2 != FR_MODULUS_LIMB_2 {
        l2 < FR_MODULUS_LIMB_2
    } else if l1 != FR_MODULUS_LIMB_1 {
        l1 < FR_MODULUS_LIMB_1
    } else {
        l0 < FR_MODULUS_LIMB_0
    };
    proof {
        assert(fr_order() == FR_MODULUS_LIMB_0 as nat
            + FR_MODULUS_LIMB_1 as nat * 0x10000000000000000nat
            + FR_MODULUS_LIMB_2 as nat * 0x100000000000000000000000000000000nat
            + FR_MODULUS_LIMB_3 as nat * 0x1000000000000000000000000000000000000000000000000nat);
    }
    r
}

/// Field addition.  Relies on `ark_ff`'s `+` on `Fr`, which is addition
/// modulo the field order.
#[verifier::external_body]
pub fn scalar_add(a: &Scalar, b: &Scalar) -> (r: Scalar)
    requires
        a.wf(),
        b.wf(),
    ensures
        r.wf(),
        r.val() == f_add(a.val(), b.val()),
{
    let x = Fr::from_repr(BigInteger256::new([a.l0, a.l1, a.l2, a.l3])).unwrap();
    let y = Fr::from_repr(BigInteger256::new([b.l0, b.l1, b.l2, b.l3])).unwrap();
    let z = (x + y).into_repr().0;
    Scalar { l0: z[0], l1: z[1], l2: z[2], l3: z[3] }
}

/// Field subtraction.  Relies on `ark_ff`'s `-` on `Fr`, which is subtraction
/// modulo the field order.
#[verifier::external_body]
pub fn scalar_sub(a: &Scalar, b: &Scalar) -> (r: Scalar)
    requires
        a.wf(),
        b.wf(),
    ensures
        r.wf(),
        r.val() == f_sub(a.val(), b.val()),
{
    let x = Fr::from_repr(BigInteger256::new([a.l0, a.l1, a.l2, a.l3])).unwrap();
    let y = Fr::from_repr(BigInteger256::new([b.l0, b.l1, b.l2, b.l3])).unwrap();
    let z = (x - y).into_repr().0;
    Scalar { l0: z[0], l1: z[1], l2: z[2], l3: z[3] }
}

/// Field negation.  Relies on `ark_ff`'s unary `-` on `Fr`.
#[verifier::external_body]
pub fn scalar_neg(a: &Scalar) -> (r: Scalar)
    requires
        a.wf(),
    ensures
        r.wf(),
        r.val() == f_neg(a.val()),
{
    let x = Fr::from_repr(BigInteger256::new([a.l0, a.l1, a.l2, a.l3])).unwrap();
    let z = (-x).into_repr().0;
    Scalar { l0: z[0], l1: z[1], l2: z[2], l3: z[3] }
}

/// Field multiplication.  Relies on `ark_ff`'s `*` on `Fr`, which is
/// multiplication modulo the field order.
#[verifier::external_body]
pub fn scalar_mul(a: &Scalar, b: &Scalar) -> (r: Scalar)
    requires
        a.wf(),
        b.wf(),
    ensures
        r.wf(),
        r.val() == f_mul(a.val(), b.val()),
{
    let x = Fr::from_repr(BigInteger256::new([a.l0, a.l1, a.l2, a.l3])).unwrap();
    let y = Fr::from_repr(BigInteger256::new([b.l0, b.l1, b.l2, b.l3])).unwrap();
    let z = (x * y).into_repr().0;
    Scalar { l0: z[0], l1: z[1], l2: z[2], l3: z[3] }
}

/// Multiplicative inverse.  Relies on `ark_ff`'s `Field::inverse`, which
/// returns `None` exactly on the zero element.
#[verifier::external_body]
pub fn scalar_inverse(a: &Scalar) -> (r: Option<Scalar>)
    requires
        a.wf(),
    ensures
        r is None <==> a.val() == 0,
        r matches Some(i) ==> i.wf() && f_mul(a.val(), i.val()) == 1,
{
    let x = Fr::from_repr(BigInteger256::new([a.l0, a.l1, a.l2, a.l3])).unwrap();
    match x.inverse() {
        None => None,
        Some(i) => {
            let z = i.into_repr().0;
            Some(Scalar { l0: z[0], l1: z[1], l2: z[2], l3: z[3] })
        },
    }
}

/// In-place batch inversion.  Relies on `ark_ff::batch_inversion`, which
/// inverts every non-zero entry and leaves zero entries untouched.
#[verifier::external_body]
pub fn scalar_batch_inversion(v: &mut Vec<Scalar>)
    requires
        all_wf(old(v)@),
    ensures
        final(v)@.len() == old(v)@.len(),
        all_wf(final(v)@),
        forall|i: int|
            0 <= i < final(v)@.len() ==> if old(v)@[i].val() == 0 {
                #[trigger] final(v)@[i] == old(v)@[i]
            } else {
                f_mul(old(v)@[i].val(), final(v)@[i].val()) == 1
            },
{
    let mut elems: Vec<Fr> = v
        .iter()
        .map(|s| Fr::from_repr(BigInteger256::new([s.l0, s.l1, s.l2, s.l3])).unwrap())
        .collect();
    ark_ff::batch_inversion(&mut elems);
    *v = elems
        .iter()
        .map(|x| {
            let z = x.into_repr().0;
            Scalar { l0: z[0], l1: z[1], l2: z[2], l3: z[3] }
        })
        .collect();
}

/// Integer read from a little-endian byte sequence.
pub open spec fn le_bytes_nat(s: Seq<u8>) -> nat
    decreases s.len(),
{
    if s.len() == 0 {
        0nat
    } else {
        s[0] as nat + 256 * le_bytes_nat(s.subrange(1, s.len() as int))
    }
}

/// Field element from little-endian bytes.  Relies on
/// `ark_ff::PrimeField::from_le_bytes_mod_order`: the bytes are read as a
/// little-endian integer and reduced modulo the field order.
#[verifier::external_body]
pub fn scalar_from_le_bytes_mod_order(bytes: &Vec<u8>) -> (r: Scalar)
    ensures
        r.wf(),
        r.val() == le_bytes_nat(bytes@) % fr_order(),
{
    let z = Fr::from_le_bytes_mod_order(bytes.as_slice()).into_repr().0;
    Scalar { l0: z[0], l1: z[1], l2: z[2], l3: z[3] }
}

/// Square-and-multiply exponentiation, proved against `f_pow`.
pub fn scalar_pow(base: &Scalar, e: u64) -> (r: Scalar)
    requires
        base.wf(),
    ensures
        r.wf(),
        r.val() == f_pow(base.val(), e as nat),
{
    let mut acc = scalar_one();
    let mut b = *base;
    let mut exp = e;
    proof {
        lemma_f_pow_bound(base.val(), e as nat);
        lemma_f_mul_one(f_pow(base.val(), e as nat));
    }
    while exp > 0
        invariant
            acc.wf(),
            b.wf(),
            f_mul(acc.val(), f_pow(b.val(), exp as nat)) == f_pow(base.val(), e as nat),
        decreases exp,
    {
        let ghost acc0 = acc.val();
        let ghost b0 = b.val();
        let ghost m = (exp / 2) as nat;
        proof {
            assert(exp as nat == 2 * m + (exp % 2) as nat);
            lemma_f_pow_double(b0, m);
        }
        if exp % 2 == 1 {
            acc = scalar_mul(&acc, &b);
            proof {
                // acc0 * b^ (2m+1) == (acc0*b) * (b^2)^m
                assert(f_pow(b0, (2 * m + 1) as nat) == f_mul(b0, f_pow(b0, 2 * m)));
                lemma_f_mul_assoc(acc0, b0, f_pow(b0, 2 * m));
                lemma_f_mul_reduce(acc0 * b0, f_pow(b0, 2 * m));
                // link f_pow(b0, 2m) with f_pow(f_mul(b0,b0), m)
            }
        }
        b = scalar_mul(&b, &b);
        exp = exp / 2;
        proof {
            lemma_f_mul_reduce(acc.val() as nat, f_pow(b0 * b0, m));
            lemma_f_mul_reduce2(acc.val() as nat, b0 * b0, m);
        }
    }
    proof {
        lemma_f_mul_one(acc.val());
    }
    acc
}

/// `f_pow` only depends on the base modulo the field order.
pub proof fn lemma_f_pow_reduce(b: nat, e: nat)
    ensures
        f_pow(b % fr_order(), e) == f_pow(b, e),
    decreases e,
{
    if e == 0 {
    } else {
        lemma_f_pow_reduce(b, (e - 1) as nat);
        lemma_f_mul_reduce(b, f_pow(b % fr_order(), (e - 1) as nat));
    }
}

proof fn lemma_f_mul_reduce2(a: nat, b: nat, m: nat)
    ensures
        f_mul(a, f_pow(b % fr_order(), m)) == f_mul(a, f_pow(b, m)),
{
    lemma_f_pow_reduce(b, m);
}

} // verus!
