//! Wire-format round trip and tamper detection.

use ark_ec::{AffineCurve, ProjectiveCurve};
use ark_ff::Zero;
use ark_ff::PrimeField;
use ark_bls12_381::{Fr, G1Affine};
use plonk_core::commitment::{Commitment, OpeningProof};
use plonk_core::encoding::{deserialize_proof, serialize_proof};
use plonk_core::field::Scalar;
use plonk_core::proof_system::Proof;
use plonk_core::widget::{
    CustomEvaluations, PermutationEvaluations, ProofEvaluations, WireEvaluations,
};

fn to_scalar(x: Fr) -> Scalar {
    let l = x.into_repr().0;
    Scalar { l0: l[0], l1: l[1], l2: l[2], l3: l[3] }
}

fn point(k: u64) -> Commitment {
    let g = G1Affine::prime_subgroup_generator();
    Commitment { inner: g.mul(Fr::from(k)).into_affine() }
}

fn sample_proof() -> Proof {
    let s = |k: u64| to_scalar(Fr::from(k));
    Proof {
        a_comm: point(2),
        b_comm: point(3),
        c_comm: point(5),
        d_comm: point(7),
        z_comm: point(11),
        t_1_comm: point(13),
        t_2_comm: point(17),
        t_3_comm: point(19),
        t_4_comm: point(23),
        aw_opening: OpeningProof { w: point(29), random_v: Some(s(31)) },
        saw_opening: OpeningProof { w: point(37), random_v: None },
        evaluations: ProofEvaluations {
            wire_evals: WireEvaluations {
                a_eval: s(41),
                b_eval: s(43),
                c_eval: s(47),
                d_eval: s(53),
            },
            perm_evals: PermutationEvaluations {
                left_sigma_eval: s(59),
                right_sigma_eval: s(61),
                out_sigma_eval: s(67),
                permutation_eval: s(71),
            },
            custom_evals: CustomEvaluations {
                a_next_eval: s(73),
                b_next_eval: s(79),
                d_next_eval: s(83),
                q_l_eval: s(89),
                q_r_eval: s(97),
                q_c_eval: s(101),
            },
        },
    }
}

#[test]
fn serialize_deserialize_roundtrip() {
    let p = sample_proof();
    let bytes = serialize_proof(&p);
    assert_eq!(bytes.len(), 1042);
    let q = deserialize_proof(&bytes).expect("round trip");
    assert_eq!(p, q);
}

#[test]
fn roundtrip_with_infinity_commitment() {
    // The identity point is a legitimate commitment (to the zero
    // polynomial) and must survive the round trip too.
    let mut p = sample_proof();
    p.z_comm = Commitment { inner: G1Affine::zero() };
    let bytes = serialize_proof(&p);
    let q = deserialize_proof(&bytes).expect("round trip");
    assert_eq!(p, q);
}

#[test]
fn truncated_or_padded_input_is_rejected() {
    let p = sample_proof();
    let bytes = serialize_proof(&p);
    let mut short = bytes.clone();
    short.pop();
    assert!(deserialize_proof(&short).is_err());
    let mut long = bytes.clone();
    long.push(0);
    assert!(deserialize_proof(&long).is_err());
    assert!(deserialize_proof(&Vec::new()).is_err());
}

#[test]
fn bit_flips_never_yield_the_same_proof() {
    // Flipping any single bit either breaks decoding or decodes to a
    // different proof; it can never be mistaken for the original.
    let p = sample_proof();
    let bytes = serialize_proof(&p);
    let mut position = 0usize;
    while position < bytes.len() {
        let mut tampered = bytes.clone();
        tampered[position] ^= 1;
        match deserialize_proof(&tampered) {
            Err(_) => {},
            Ok(q) => assert_ne!(p, q, "tampered byte {} decoded to the original", position),
        }
        position += 11;
    }
}

#[test]
fn noncanonical_scalar_is_rejected() {
    // Overwrite one evaluation with the field order itself: 32 bytes that
    // read back as a non-canonical representative.
    let p = sample_proof();
    let mut bytes = serialize_proof(&p);
    let modulus_le: [u64; 4] = [
        0xffffffff00000001,
        0x53bda402fffe5bfe,
        0x3339d80809a1d805,
        0x73eda753299d7d48,
    ];
    let mut enc = Vec::new();
    for limb in modulus_le {
        enc.extend_from_slice(&limb.to_le_bytes());
    }
    bytes[594..626].copy_from_slice(&enc);
    assert!(deserialize_proof(&bytes).is_err());
}
