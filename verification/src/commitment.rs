//! Commitment-scheme layer.
//!
//! A commitment is a point of the BLS12-381 `G1` group, opaque to the core:
//! the verifier only forwards commitments into the transcript, combines them
//! homomorphically, and delegates the two batched opening checks to the
//! scheme.  All of that is `ark` code behind trusted wrappers; the encoding
//! of a commitment is named by `g1_bytes` so that serialization contracts can
//! speak about it.  The `ark` point and key types are generic over curve
//! parameters, which Verus cannot declare directly, so each is held opaque
//! in a single-field carrier struct.

use vstd::prelude::*;
use crate::field::{all_wf, vals, Scalar};
use crate::Error;
use ark_ff::PrimeField;
use ark_bls12_381::Fr;
use ark_poly_commit::PolynomialCommitment;
use ark_poly_commit::{kzg10, sonic_pc, LabeledCommitment};
use ark_poly::univariate::DensePolynomial;
use ark_bls12_381::Bls12_381;
use ark_ff::BigInteger256;

verus! {

/// A commitment to a polynomial: a point of `G1`, opaque to the core.
#[derive(PartialEq, Eq, Debug)]
#[verifier::external_body]
pub struct Commitment {
    pub inner: ark_ec::short_weierstrass_jacobian::GroupAffine<ark_bls12_381::g1::Parameters>,
}

impl Clone for Commitment {
    /// Relies on `GroupAffine` being `Copy`: the clone carries the same point.
    #[verifier::external_body]
    fn clone(&self) -> (r: Self)
        ensures
            r == *self,
    {
        Commitment { inner: self.inner }
    }
}

/// The commitment scheme's verifying key, produced by its setup and carried
/// through unchanged, opaque to the core.
#[verifier::external_body]
pub struct SchemeVerifierKey {
    pub inner: ark_poly_commit::sonic_pc::VerifierKey<ark_bls12_381::Bls12_381>,
}

/// An opening proof for a batched evaluation: a `G1` witness point and, for
/// hiding commitments, a blinding evaluation.
#[derive(PartialEq, Eq, Debug)]
pub struct OpeningProof {
    pub w: Commitment,
    pub random_v: Option<Scalar>,
}

impl Clone for OpeningProof {
    fn clone(&self) -> (r: Self)
        ensures
            r == *self,
    {
        OpeningProof { w: self.w.clone(), random_v: self.random_v }
    }
}

impl OpeningProof {
    pub open spec fn wf(self) -> bool {
        &&& g1_ok(self.w)
        &&& g1_bytes(self.w).len() == 48
        &&& (self.random_v matches Some(v) ==> v.wf())
    }
}

/// The canonical compressed encoding (48 bytes) of a `G1` point.
pub uninterp spec fn g1_bytes(c: Commitment) -> Seq<u8>;

/// Whether a point passes the scheme's validity check: on the curve and in
/// the prime-order subgroup.  Exactly what deserialization revalidates.
pub uninterp spec fn g1_ok(c: Commitment) -> bool;

/// Encodes a commitment.  Relies on `ark_serialize::CanonicalSerialize` for
/// curve points: 48 bytes, compressed, canonical.
#[verifier::external_body]
pub fn commitment_to_bytes(c: &Commitment) -> (r: Vec<u8>)
    ensures
        r@.len() == 48,
        r@ == g1_bytes(*c),
{
    let mut buf = Vec::new();
    ark_serialize::CanonicalSerialize::serialize(&c.inner, &mut buf).unwrap();
    buf
}

/// Decodes and validates a commitment.  Relies on
/// `ark_serialize::CanonicalDeserialize` for curve points: it rejects
/// points outside the curve or its prime-order subgroup, and inverts
/// `CanonicalSerialize` on valid points.  It does not promise that the
/// input bytes were canonical (the identity point, for one, decodes from
/// several encodings), so a caller that needs canonicity re-serializes and
/// compares.
#[verifier::external_body]
pub fn commitment_from_bytes(bytes: &Vec<u8>) -> (r: Option<Commitment>)
    requires
        bytes@.len() == 48,
    ensures
        r matches Some(c) ==> g1_ok(c),
        forall|c: Commitment| g1_ok(c) && g1_bytes(c) == bytes@ ==> r == Some(c),
{
    ark_serialize::CanonicalDeserialize::deserialize(bytes.as_slice())
        .ok()
        .map(|p| Commitment { inner: p })
}

/// The point `ark_ec`'s multi-scalar multiplication returns: a function of
/// the points and the (reduced) scalar values alone.
pub uninterp spec fn msm_value(points: Seq<Commitment>, scalars: Seq<nat>) -> Commitment;

/// Homomorphic combination of commitments.  Relies on
/// `ark_ec::msm::VariableBaseMSM::multi_scalar_mul`, which is deterministic
/// in its inputs.
#[verifier::external_body]
pub fn multi_scalar_mul(points: &Vec<Commitment>, scalars: &Vec<Scalar>) -> (r: Commitment)
    requires
        points@.len() == scalars@.len(),
        all_wf(scalars@),
    ensures
        r == msm_value(points@, vals(scalars@)),
{
    let bases: Vec<_> = points.iter().map(|p| p.inner).collect();
    let bigints: Vec<ark_ff::BigInteger256> = scalars
        .iter()
        .map(|s| ark_ff::BigInteger256::new([s.l0, s.l1, s.l2, s.l3]))
        .collect();
    let acc = ark_ec::msm::VariableBaseMSM::multi_scalar_mul(bases.as_slice(), &bigints);
    Commitment { inner: ark_ec::ProjectiveCurve::into_affine(&acc) }
}

type SonicScheme = sonic_pc::SonicKZG10<Bls12_381, DensePolynomial<Fr>>;

/// The verdict of `SonicKZG10::check`: a pure function of the verifying
/// key, the batch, the evaluation point, the claimed values, the opening and
/// the combination challenge.
pub uninterp spec fn kzg_accepts(
    vk: SchemeVerifierKey,
    commitments: Seq<Commitment>,
    point: nat,
    evals: Seq<nat>,
    opening: OpeningProof,
    challenge: nat,
) -> bool;

/// One batched opening check.  Relies on
/// `ark_poly_commit`'s `SonicKZG10::check`: the commitments are combined
/// with powers of the challenge and the opening is verified against the
/// claimed evaluations at the point.  The boolean verdict is deterministic
/// in the arguments — `kzg_accepts` names it — with `Ok(false)` a clean
/// rejection and `Err` a scheme fault.
#[verifier::external_body]
pub fn scheme_check(
    vk: &SchemeVerifierKey,
    commitments: &Vec<Commitment>,
    point: &Scalar,
    evals: &Vec<Scalar>,
    opening: &OpeningProof,
    challenge: &Scalar,
) -> (r: Result<bool, Error>)
    requires
        commitments@.len() == evals@.len(),
        point.wf(),
        all_wf(evals@),
        opening.wf(),
        challenge.wf(),
    ensures
        r matches Ok(b) ==> b == kzg_accepts(
            *vk,
            commitments@,
            point.val(),
            vals(evals@),
            *opening,
            challenge.val(),
        ),
        r matches Err(e) ==> e == Error::CommitmentSchemeFault,
{
    let f = |s: &Scalar| Fr::from_repr(BigInteger256::new([s.l0, s.l1, s.l2, s.l3])).unwrap();
    let cs: Vec<_> = commitments.iter().map(|c| LabeledCommitment::new(String::new(), kzg10::Commitment(c.inner), None)).collect();
    let pf = kzg10::Proof { w: opening.w.inner, random_v: opening.random_v.as_ref().map(|v| f(v)) };
    SonicScheme::check(&vk.inner, cs.iter(), &f(point), evals.iter().map(|e| f(e)), &pf, f(challenge), None).map_err(|_| Error::CommitmentSchemeFault)
}

} // verus!
