//! Wire format of proofs.
//!
//! A proof is encoded as the ordered concatenation of its nine commitment
//! encodings (48 compressed bytes each), its two opening-proof encodings
//! (witness point, presence flag, then the blinding evaluation or zero
//! padding), and the fourteen scalars of the evaluation record in transcript
//! order — 1042 bytes in all.  Decoding re-validates every commitment's
//! group membership and every scalar's canonicity, and inverts encoding
//! exactly: for every valid proof, decoding its encoding returns the proof.

use vstd::prelude::*;
use vstd::bytes::{lemma_auto_spec_u64_to_from_le_bytes, spec_u64_to_le_bytes, u64_from_le_bytes};
use vstd::slice::slice_subrange;
use crate::commitment::{g1_bytes, g1_ok, commitment_from_bytes, commitment_to_bytes, Commitment, OpeningProof};
use crate::field::{limbs_are_canonical, Scalar};
use crate::proof_system::Proof;
use crate::transcript::{scalar_le_bytes, scalar_to_bytes};
use crate::widget::ProofEvaluations;
use crate::Error;

verus! {

/// Thirty-two zero bytes: the padding of an absent blinding evaluation.
pub open spec fn zero32() -> Seq<u8> {
    Seq::new(32, |i: int| 0u8)
}

/// Encoding of an opening proof: witness point, presence flag, and the
/// blinding evaluation or zero padding.
pub open spec fn opening_bytes(o: OpeningProof) -> Seq<u8> {
    g1_bytes(o.w) + (match o.random_v {
        Some(v) => seq![1u8] + scalar_le_bytes(v),
        None => seq![0u8] + zero32(),
    })
}

/// Encoding of the evaluation record: the fourteen scalars in the order the
/// transcript consumes them.
pub open spec fn evaluations_bytes(e: ProofEvaluations) -> Seq<u8> {
    scalar_le_bytes(e.wire_evals.a_eval) + scalar_le_bytes(e.wire_evals.b_eval) + scalar_le_bytes(
        e.wire_evals.c_eval,
    ) + scalar_le_bytes(e.wire_evals.d_eval) + scalar_le_bytes(e.perm_evals.left_sigma_eval)
        + scalar_le_bytes(e.perm_evals.right_sigma_eval) + scalar_le_bytes(
        e.perm_evals.out_sigma_eval,
    ) + scalar_le_bytes(e.perm_evals.permutation_eval) + scalar_le_bytes(
        e.custom_evals.a_next_eval,
    ) + scalar_le_bytes(e.custom_evals.b_next_eval) + scalar_le_bytes(e.custom_evals.d_next_eval)
        + scalar_le_bytes(e.custom_evals.q_l_eval) + scalar_le_bytes(e.custom_evals.q_r_eval)
        + scalar_le_bytes(e.custom_evals.q_c_eval)
}

/// The wire format of a proof.
pub open spec fn proof_bytes(p: Proof) -> Seq<u8> {
    g1_bytes(p.a_comm) + g1_bytes(p.b_comm) + g1_bytes(p.c_comm) + g1_bytes(p.d_comm) + g1_bytes(
        p.z_comm,
    ) + g1_bytes(p.t_1_comm) + g1_bytes(p.t_2_comm) + g1_bytes(p.t_3_comm) + g1_bytes(p.t_4_comm)
        + opening_bytes(p.aw_opening) + opening_bytes(p.saw_opening) + evaluations_bytes(
        p.evaluations,
    )
}

fn serialize_opening(out: &mut Vec<u8>, o: &OpeningProof)
    ensures
        final(out)@ == old(out)@ + opening_bytes(*o),
{
    let mut wb = commitment_to_bytes(&o.w);
    out.append(&mut wb);
    match &o.random_v {
        Some(v) => {
            out.push(1u8);
            let mut sb = scalar_to_bytes(v);
            out.append(&mut sb);
            proof {
                assert(final(out)@ =~= old(out)@ + opening_bytes(*o));
            }
        },
        None => {
            out.push(0u8);
            let mut pad: Vec<u8> = Vec::new();
            let mut i: usize = 0;
            while i < 32
                invariant
                    i <= 32,
                    pad@.len() == i,
                    forall|t: int| 0 <= t < i ==> pad@[t] == 0u8,
                decreases 32 - i,
            {
                pad.push(0u8);
                i = i + 1;
            }
            proof {
                assert(pad@ =~= zero32());
            }
            out.append(&mut pad);
            proof {
                assert(final(out)@ =~= old(out)@ + opening_bytes(*o));
            }
        },
    }
}

/// Encodes a proof in the wire format.
pub fn serialize_proof(p: &Proof) -> (r: Vec<u8>)
    ensures
        r@ == proof_bytes(*p),
{
    let mut out: Vec<u8> = Vec::new();
    let mut b0 = commitment_to_bytes(&p.a_comm);
    out.append(&mut b0);
    let mut b1 = commitment_to_bytes(&p.b_comm);
    out.append(&mut b1);
    let mut b2 = commitment_to_bytes(&p.c_comm);
    out.append(&mut b2);
    let mut b3 = commitment_to_bytes(&p.d_comm);
    out.append(&mut b3);
    let mut b4 = commitment_to_bytes(&p.z_comm);
    out.append(&mut b4);
    let mut b5 = commitment_to_bytes(&p.t_1_comm);
    out.append(&mut b5);
    let mut b6 = commitment_to_bytes(&p.t_2_comm);
    out.append(&mut b6);
    let mut b7 = commitment_to_bytes(&p.t_3_comm);
    out.append(&mut b7);
    let mut b8 = commitment_to_bytes(&p.t_4_comm);
    out.append(&mut b8);
    serialize_opening(&mut out, &p.aw_opening);
    serialize_opening(&mut out, &p.saw_opening);
    let mut s0 = scalar_to_bytes(&p.evaluations.wire_evals.a_eval);
    out.append(&mut s0);
    let mut s1 = scalar_to_bytes(&p.evaluations.wire_evals.b_eval);
    out.append(&mut s1);
    let mut s2 = scalar_to_bytes(&p.evaluations.wire_evals.c_eval);
    out.append(&mut s2);
    let mut s3 = scalar_to_bytes(&p.evaluations.wire_evals.d_eval);
    out.append(&mut s3);
    let mut s4 = scalar_to_bytes(&p.evaluations.perm_evals.left_sigma_eval);
    out.append(&mut s4);
    let mut s5 = scalar_to_bytes(&p.evaluations.perm_evals.right_sigma_eval);
    out.append(&mut s5);
    let mut s6 = scalar_to_bytes(&p.evaluations.perm_evals.out_sigma_eval);
    out.append(&mut s6);
    let mut s7 = scalar_to_bytes(&p.evaluations.perm_evals.permutation_eval);
    out.append(&mut s7);
    let mut s8 = scalar_to_bytes(&p.evaluations.custom_evals.a_next_eval);
    out.append(&mut s8);
    let mut s9 = scalar_to_bytes(&p.evaluations.custom_evals.b_next_eval);
    out.append(&mut s9);
    let mut s10 = scalar_to_bytes(&p.evaluations.custom_evals.d_next_eval);
    out.append(&mut s10);
    let mut s11 = scalar_to_bytes(&p.evaluations.custom_evals.q_l_eval);
    out.append(&mut s11);
    let mut s12 = scalar_to_bytes(&p.evaluations.custom_evals.q_r_eval);
    out.append(&mut s12);
    let mut s13 = scalar_to_bytes(&p.evaluations.custom_evals.q_c_eval);
    out.append(&mut s13);
    proof {
        assert(out@ =~= proof_bytes(*p));
    }
    out
}

/// Copies a range of the byte vector.
fn copy_range(bytes: &Vec<u8>, off: usize, len: usize) -> (r: Vec<u8>)
    requires
        off + len <= bytes@.len(),
    ensures
        r@ == bytes@.subrange(off as int, off as int + len as int),
{
    let total = bytes.len();
    let mut out: Vec<u8> = Vec::new();
    let mut i: usize = 0;
    while i < len
        invariant
            i <= len,
            off + len <= total,
            total == bytes@.len(),
            out@.len() == i,
            forall|t: int| 0 <= t < i ==> out@[t] == bytes@[off + t],
        decreases len - i,
    {
        out.push(bytes[off + i]);
        i = i + 1;
    }
    proof {
        assert(out@ =~= bytes@.subrange(off as int, off as int + len as int));
    }
    out
}

/// Byte-for-byte equality of two vectors.
fn bytes_equal(a: &Vec<u8>, b: &Vec<u8>) -> (r: bool)
    ensures
        r <==> a@ == b@,
{
    if a.len() != b.len() {
        return false;
    }
    let mut i: usize = 0;
    while i < a.len()
        invariant
            i <= a@.len(),
            a@.len() == b@.len(),
            forall|t: int| 0 <= t < i ==> a@[t] == b@[t],
        decreases a@.len() - i,
    {
        if a[i] != b[i] {
            return false;
        }
        i = i + 1;
    }
    proof {
        assert(a@ =~= b@);
    }
    true
}

/// Reads and validates one commitment at the given offset, insisting on the
/// canonical encoding: the decoded point must re-serialize to exactly the
/// bytes read.
fn read_commitment(bytes: &Vec<u8>, off: usize) -> (r: Option<Commitment>)
    requires
        off + 48 <= bytes@.len(),
    ensures
        r matches Some(c) ==> g1_ok(c) && g1_bytes(c) == bytes@.subrange(
            off as int,
            off as int + 48,
        ),
        forall|c: Commitment|
            g1_ok(c) && g1_bytes(c) == bytes@.subrange(off as int, off as int + 48) ==> r == Some(
                c,
            ),
{
    let piece = copy_range(bytes, off, 48);
    match commitment_from_bytes(&piece) {
        Some(c) => {
            let canonical = commitment_to_bytes(&c);
            if bytes_equal(&canonical, &piece) {
                Some(c)
            } else {
                None
            }
        },
        None => None,
    }
}

/// Reads and validates one scalar at the given offset.
fn read_scalar(bytes: &Vec<u8>, off: usize) -> (r: Option<Scalar>)
    requires
        off + 32 <= bytes@.len(),
    ensures
        r matches Some(s) ==> s.wf() && scalar_le_bytes(s) == bytes@.subrange(
            off as int,
            off as int + 32,
        ),
        forall|s: Scalar|
            s.wf() && scalar_le_bytes(s) == bytes@.subrange(off as int, off as int + 32) ==> r
                == Some(s),
{
    proof {
        lemma_auto_spec_u64_to_from_le_bytes();
    }
    let _total = bytes.len();
    let ghost sub = bytes@.subrange(off as int, off as int + 32);
    let sl = bytes.as_slice();
    let l0 = u64_from_le_bytes(slice_subrange(sl, off, off + 8));
    let l1 = u64_from_le_bytes(slice_subrange(sl, off + 8, off + 16));
    let l2 = u64_from_le_bytes(slice_subrange(sl, off + 16, off + 24));
    let l3 = u64_from_le_bytes(slice_subrange(sl, off + 24, off + 32));
    proof {
        assert(bytes@.subrange(off as int, off as int + 8) =~= sub.subrange(0, 8));
        assert(bytes@.subrange(off as int + 8, off as int + 16) =~= sub.subrange(8, 16));
        assert(bytes@.subrange(off as int + 16, off as int + 24) =~= sub.subrange(16, 24));
        assert(bytes@.subrange(off as int + 24, off as int + 32) =~= sub.subrange(24, 32));
        assert forall|s2: Scalar| scalar_le_bytes(s2) == sub implies s2.l0
            == spec_u64_from_le_bytes_at(sub, 0) && s2.l1 == spec_u64_from_le_bytes_at(sub, 8)
            && s2.l2 == spec_u64_from_le_bytes_at(sub, 16) && s2.l3 == spec_u64_from_le_bytes_at(
            sub,
            24,
        ) by {
            assert(spec_u64_to_le_bytes(s2.l0) =~= sub.subrange(0, 8));
            assert(spec_u64_to_le_bytes(s2.l1) =~= sub.subrange(8, 16));
            assert(spec_u64_to_le_bytes(s2.l2) =~= sub.subrange(16, 24));
            assert(spec_u64_to_le_bytes(s2.l3) =~= sub.subrange(24, 32));
        }
    }
    if limbs_are_canonical(l0, l1, l2, l3) {
        let s = Scalar { l0, l1, l2, l3 };
        proof {
            assert(scalar_le_bytes(s) =~= sub);
        }
        Some(s)
    } else {
        None
    }
}

/// The 64-bit integer read at an offset of a byte sequence.
pub open spec fn spec_u64_from_le_bytes_at(s: Seq<u8>, off: int) -> u64 {
    vstd::bytes::spec_u64_from_le_bytes(s.subrange(off, off + 8))
}

/// Reads and validates one opening proof at the given offset.
fn read_opening(bytes: &Vec<u8>, off: usize) -> (r: Option<OpeningProof>)
    requires
        off + 81 <= bytes@.len(),
    ensures
        r matches Some(o) ==> o.wf() && opening_bytes(o) == bytes@.subrange(
            off as int,
            off as int + 81,
        ),
        forall|o: OpeningProof|
            o.wf() && opening_bytes(o) == bytes@.subrange(off as int, off as int + 81) ==> r
                == Some(o),
{
    let total = bytes.len();
    let ghost sub = bytes@.subrange(off as int, off as int + 81);
    let w = match read_commitment(bytes, off) {
        Some(c) => c,
        None => {
            proof {
                assert forall|o: OpeningProof|
                    o.wf() && opening_bytes(o) == sub implies false by {
                    assert(g1_bytes(o.w) =~= bytes@.subrange(off as int, off as int + 48));
                }
            }
            return None;
        },
    };
    proof {
        assert(g1_bytes(w) =~= sub.subrange(0, 48));
    }
    let flag = bytes[off + 48];
    if flag == 1 {
        match read_scalar(bytes, off + 49) {
            Some(v) => {
                let o = OpeningProof { w, random_v: Some(v) };
                proof {
                    assert(opening_bytes(o) =~= sub);
                    assert forall|o2: OpeningProof|
                        o2.wf() && opening_bytes(o2) == sub implies o2 == o by {
                        assert(g1_bytes(o2.w) =~= bytes@.subrange(off as int, off as int + 48));
                        assert(opening_bytes(o2)[48] == 1u8);
                        if o2.random_v is None {
                            assert(opening_bytes(o2)[48] == 0u8);
                        }
                        let v2 = o2.random_v->0;
                        lemma_auto_spec_u64_to_from_le_bytes();
                        assert(scalar_le_bytes(v2).len() == 32);
                        assert forall|u: int|
                            0 <= u < 32 implies scalar_le_bytes(v2)[u] == bytes@.subrange(
                            off as int + 49,
                            off as int + 81,
                        )[u] by {
                            assert(opening_bytes(o2)[49 + u] == scalar_le_bytes(v2)[u]);
                            assert(sub[49 + u] == bytes@.subrange(
                                off as int + 49,
                                off as int + 81,
                            )[u]);
                        }
                        assert(scalar_le_bytes(v2) =~= bytes@.subrange(
                            off as int + 49,
                            off as int + 81,
                        ));
                    }
                }
                Some(o)
            },
            None => {
                proof {
                    assert forall|o2: OpeningProof|
                        o2.wf() && opening_bytes(o2) == sub implies false by {
                        assert(opening_bytes(o2)[48] == 1u8);
                        if o2.random_v is None {
                            assert(opening_bytes(o2)[48] == 0u8);
                        }
                        let v2 = o2.random_v->0;
                        lemma_auto_spec_u64_to_from_le_bytes();
                        assert(scalar_le_bytes(v2).len() == 32);
                        assert forall|u: int|
                            0 <= u < 32 implies scalar_le_bytes(v2)[u] == bytes@.subrange(
                            off as int + 49,
                            off as int + 81,
                        )[u] by {
                            assert(opening_bytes(o2)[49 + u] == scalar_le_bytes(v2)[u]);
                            assert(sub[49 + u] == bytes@.subrange(
                                off as int + 49,
                                off as int + 81,
                            )[u]);
                        }
                        assert(scalar_le_bytes(v2) =~= bytes@.subrange(
                            off as int + 49,
                            off as int + 81,
                        ));
                    }
                }
                None
            },
        }
    } else if flag == 0 {
        let mut i: usize = 0;
        let mut all_zero = true;
        while i < 32
            invariant
                i <= 32,
                off + 81 <= total,
                total == bytes@.len(),
                all_zero <==> (forall|u: int|
                    off + 49 <= u < off + 49 + i ==> #[trigger] bytes@[u] == 0u8),
            decreases 32 - i,
        {
            if bytes[off + 49 + i] != 0 {
                all_zero = false;
            }
            i = i + 1;
        }
        if all_zero {
            let o = OpeningProof { w, random_v: None };
            proof {
                assert(opening_bytes(o) =~= sub);
                assert forall|o2: OpeningProof|
                    o2.wf() && opening_bytes(o2) == sub implies o2 == o by {
                    assert(g1_bytes(o2.w) =~= bytes@.subrange(off as int, off as int + 48));
                    assert(opening_bytes(o2)[48] == 0u8);
                    if o2.random_v is Some {
                        assert(opening_bytes(o2)[48] == 1u8);
                    }
                }
            }
            Some(o)
        } else {
            proof {
                assert forall|o2: OpeningProof|
                    o2.wf() && opening_bytes(o2) == sub implies false by {
                    assert(opening_bytes(o2)[48] == 0u8);
                    if o2.random_v is Some {
                        assert(opening_bytes(o2)[48] == 1u8);
                    }
                    assert forall|u: int|
                        off + 49 <= u < off + 49 + 32 implies #[trigger] bytes@[u] == 0u8 by {
                        assert(opening_bytes(o2)[u - off] == 0u8);
                    }
                }
            }
            None
        }
    } else {
        proof {
            assert forall|o2: OpeningProof| o2.wf() && opening_bytes(o2) == sub implies false by {
                if o2.random_v is Some {
                    assert(opening_bytes(o2)[48] == 1u8);
                } else {
                    assert(opening_bytes(o2)[48] == 0u8);
                }
            }
        }
        None
    }
}

/// Decodes a proof from the wire format, re-validating every commitment's
/// group membership and every scalar's canonicity.  Decoding is the exact
/// inverse of encoding: for every valid proof whose encoding the input is,
/// the result is that proof.
#[verifier::rlimit(100)]
pub fn deserialize_proof(bytes: &Vec<u8>) -> (r: Result<Proof, Error>)
    ensures
        r matches Ok(p) ==> p.wf() && proof_bytes(p) == bytes@,
        forall|p: Proof|
            p.wf() && proof_bytes(p) == bytes@ && bytes@.len() == 1042 ==> r == Ok::<
                Proof,
                Error,
            >(p),
{
    if bytes.len() != 1042 {
        return Err(Error::InvalidProofEncoding);
    }
    let a_comm = match read_commitment(bytes, 0) {
        Some(c) => c,
        None => {
            proof {
                assert forall|p2: Proof|
                    p2.wf() && proof_bytes(p2) == bytes@ && bytes@.len() == 1042 implies false by {
                    lemma_proof_pieces(p2, bytes@);
                }
            }
            return Err(Error::InvalidProofEncoding);
        },
    };
    let b_comm = match read_commitment(bytes, 48) {
        Some(c) => c,
        None => {
            proof {
                assert forall|p2: Proof|
                    p2.wf() && proof_bytes(p2) == bytes@ && bytes@.len() == 1042 implies false by {
                    lemma_proof_pieces(p2, bytes@);
                }
            }
            return Err(Error::InvalidProofEncoding);
        },
    };
    let c_comm = match read_commitment(bytes, 96) {
        Some(c) => c,
        None => {
            proof {
                assert forall|p2: Proof|
                    p2.wf() && proof_bytes(p2) == bytes@ && bytes@.len() == 1042 implies false by {
                    lemma_proof_pieces(p2, bytes@);
                }
            }
            return Err(Error::InvalidProofEncoding);
        },
    };
    let d_comm = match read_commitment(bytes, 144) {
        Some(c) => c,
        None => {
            proof {
                assert forall|p2: Proof|
                    p2.wf() && proof_bytes(p2) == bytes@ && bytes@.len() == 1042 implies false by {
                    lemma_proof_pieces(p2, bytes@);
                }
            }
            return Err(Error::InvalidProofEncoding);
        },
    };
    let z_comm = match read_commitment(bytes, 192) {
        Some(c) => c,
        None => {
            proof {
                assert forall|p2: Proof|
                    p2.wf() && proof_bytes(p2) == bytes@ && bytes@.len() == 1042 implies false by {
                    lemma_proof_pieces(p2, bytes@);
                }
            }
            return Err(Error::InvalidProofEncoding);
        },
    };
    let t_1_comm = match read_commitment(bytes, 240) {
        Some(c) => c,
        None => {
            proof {
                assert forall|p2: Proof|
                    p2.wf() && proof_bytes(p2) == bytes@ && bytes@.len() == 1042 implies false by {
                    lemma_proof_pieces(p2, bytes@);
                }
            }
            return Err(Error::InvalidProofEncoding);
        },
    };
    let t_2_comm = match read_commitment(bytes, 288) {
        Some(c) => c,
        None => {
            proof {
                assert forall|p2: Proof|
                    p2.wf() && proof_bytes(p2) == bytes@ && bytes@.len() == 1042 implies false by {
                    lemma_proof_pieces(p2, bytes@);
                }
            }
            return Err(Error::InvalidProofEncoding);
        },
    };
    let t_3_comm = match read_commitment(bytes, 336) {
        Some(c) => c,
        None => {
            proof {
                assert forall|p2: Proof|
                    p2.wf() && proof_bytes(p2) == bytes@ && bytes@.len() == 1042 implies false by {
                    lemma_proof_pieces(p2, bytes@);
                }
            }
            return Err(Error::InvalidProofEncoding);
        },
    };
    let t_4_comm = match read_commitment(bytes, 384) {
        Some(c) => c,
        None => {
            proof {
                assert forall|p2: Proof|
                    p2.wf() && proof_bytes(p2) == bytes@ && bytes@.len() == 1042 implies false by {
                    lemma_proof_pieces(p2, bytes@);
                }
            }
            return Err(Error::InvalidProofEncoding);
        },
    };
    let aw_opening = match read_opening(bytes, 432) {
        Some(o) => o,
        None => {
            proof {
                assert forall|p2: Proof|
                    p2.wf() && proof_bytes(p2) == bytes@ && bytes@.len() == 1042 implies false by {
                    lemma_proof_pieces(p2, bytes@);
                }
            }
            return Err(Error::InvalidProofEncoding);
        },
    };
    let saw_opening = match read_opening(bytes, 513) {
        Some(o) => o,
        None => {
            proof {
                assert forall|p2: Proof|
                    p2.wf() && proof_bytes(p2) == bytes@ && bytes@.len() == 1042 implies false by {
                    lemma_proof_pieces(p2, bytes@);
                }
            }
            return Err(Error::InvalidProofEncoding);
        },
    };
    let s0 = match read_scalar(bytes, 594) {
        Some(v) => v,
        None => {
            proof {
                assert forall|p2: Proof|
                    p2.wf() && proof_bytes(p2) == bytes@ && bytes@.len() == 1042 implies false by {
                    lemma_proof_pieces(p2, bytes@);
                }
            }
            return Err(Error::InvalidProofEncoding);
        },
    };
    let s1 = match read_scalar(bytes, 626) {
        Some(v) => v,
        None => {
            proof {
                assert forall|p2: Proof|
                    p2.wf() && proof_bytes(p2) == bytes@ && bytes@.len() == 1042 implies false by {
                    lemma_proof_pieces(p2, bytes@);
                }
            }
            return Err(Error::InvalidProofEncoding);
        },
    };
    let s2 = match read_scalar(bytes, 658) {
        Some(v) => v,
        None => {
            proof {
                assert forall|p2: Proof|
                    p2.wf() && proof_bytes(p2) == bytes@ && bytes@.len() == 1042 implies false by {
                    lemma_proof_pieces(p2, bytes@);
                }
            }
            return Err(Error::InvalidProofEncoding);
        },
    };
    let s3 = match read_scalar(bytes, 690) {
        Some(v) => v,
        None => {
            proof {
                assert forall|p2: Proof|
                    p2.wf() && proof_bytes(p2) == bytes@ && bytes@.len() == 1042 implies false by {
                    lemma_proof_pieces(p2, bytes@);
                }
            }
            return Err(Error::InvalidProofEncoding);
        },
    };
    let s4 = match read_scalar(bytes, 722) {
        Some(v) => v,
        None => {
            proof {
                assert forall|p2: Proof|
                    p2.wf() && proof_bytes(p2) == bytes@ && bytes@.len() == 1042 implies false by {
                    lemma_proof_pieces(p2, bytes@);
                }
            }
            return Err(Error::InvalidProofEncoding);
        },
    };
    let s5 = match read_scalar(bytes, 754) {
        Some(v) => v,
        None => {
            proof {
                assert forall|p2: Proof|
                    p2.wf() && proof_bytes(p2) == bytes@ && bytes@.len() == 1042 implies false by {
                    lemma_proof_pieces(p2, bytes@);
                }
            }
            return Err(Error::InvalidProofEncoding);
        },
    };
    let s6 = match read_scalar(bytes, 786) {
        Some(v) => v,
        None => {
            proof {
                assert forall|p2: Proof|
                    p2.wf() && proof_bytes(p2) == bytes@ && bytes@.len() == 1042 implies false by {
                    lemma_proof_pieces(p2, bytes@);
                }
            }
            return Err(Error::InvalidProofEncoding);
        },
    };
    let s7 = match read_scalar(bytes, 818) {
        Some(v) => v,
        None => {
            proof {
                assert forall|p2: Proof|
                    p2.wf() && proof_bytes(p2) == bytes@ && bytes@.len() == 1042 implies false by {
                    lemma_proof_pieces(p2, bytes@);
                }
            }
            return Err(Error::InvalidProofEncoding);
        },
    };
    let s8 = match read_scalar(bytes, 850) {
        Some(v) => v,
        None => {
            proof {
                assert forall|p2: Proof|
                    p2.wf() && proof_bytes(p2) == bytes@ && bytes@.len() == 1042 implies false by {
                    lemma_proof_pieces(p2, bytes@);
                }
            }
            return Err(Error::InvalidProofEncoding);
        },
    };
    let s9 = match read_scalar(bytes, 882) {
        Some(v) => v,
        None => {
            proof {
                assert forall|p2: Proof|
                    p2.wf() && proof_bytes(p2) == bytes@ && bytes@.len() == 1042 implies false by {
                    lemma_proof_pieces(p2, bytes@);
                }
            }
            return Err(Error::InvalidProofEncoding);
        },
    };
    let s10 = match read_scalar(bytes, 914) {
        Some(v) => v,
        None => {
            proof {
                assert forall|p2: Proof|
                    p2.wf() && proof_bytes(p2) == bytes@ && bytes@.len() == 1042 implies false by {
                    lemma_proof_pieces(p2, bytes@);
                }
            }
            return Err(Error::InvalidProofEncoding);
        },
    };
    let s11 = match read_scalar(bytes, 946) {
        Some(v) => v,
        None => {
            proof {
                assert forall|p2: Proof|
                    p2.wf() && proof_bytes(p2) == bytes@ && bytes@.len() == 1042 implies false by {
                    lemma_proof_pieces(p2, bytes@);
                }
            }
            return Err(Error::InvalidProofEncoding);
        },
    };
    let s12 = match read_scalar(bytes, 978) {
        Some(v) => v,
        None => {
            proof {
                assert forall|p2: Proof|
                    p2.wf() && proof_bytes(p2) == bytes@ && bytes@.len() == 1042 implies false by {
                    lemma_proof_pieces(p2, bytes@);
                }
            }
            return Err(Error::InvalidProofEncoding);
        },
    };
    let s13 = match read_scalar(bytes, 1010) {
        Some(v) => v,
        None => {
            proof {
                assert forall|p2: Proof|
                    p2.wf() && proof_bytes(p2) == bytes@ && bytes@.len() == 1042 implies false by {
                    lemma_proof_pieces(p2, bytes@);
                }
            }
            return Err(Error::InvalidProofEncoding);
        },
    };
    let evaluations = ProofEvaluations {
        wire_evals: crate::widget::WireEvaluations {
            a_eval: s0,
            b_eval: s1,
            c_eval: s2,
            d_eval: s3,
        },
        perm_evals: crate::widget::PermutationEvaluations {
            left_sigma_eval: s4,
            right_sigma_eval: s5,
            out_sigma_eval: s6,
            permutation_eval: s7,
        },
        custom_evals: crate::widget::CustomEvaluations {
            a_next_eval: s8,
            b_next_eval: s9,
            d_next_eval: s10,
            q_l_eval: s11,
            q_r_eval: s12,
            q_c_eval: s13,
        },
    };
    let p = Proof {
        a_comm,
        b_comm,
        c_comm,
        d_comm,
        z_comm,
        t_1_comm,
        t_2_comm,
        t_3_comm,
        t_4_comm,
        aw_opening,
        saw_opening,
        evaluations,
    };
    proof {
        assert(proof_bytes(p) =~= bytes@);
        assert forall|p2: Proof|
            p2.wf() && proof_bytes(p2) == bytes@ implies p2 == p by {
            lemma_proof_pieces(p2, bytes@);
        }
    }
    Ok(p)
}

/// Extracts the position of every piece of a valid proof's encoding.
proof fn lemma_proof_pieces(p: Proof, whole: Seq<u8>)
    requires
        p.wf(),
        proof_bytes(p) == whole,
    ensures
        whole.len() == 1042,
        g1_bytes(p.a_comm) == whole.subrange(0, 48),
        g1_bytes(p.b_comm) == whole.subrange(48, 96),
        g1_bytes(p.c_comm) == whole.subrange(96, 144),
        g1_bytes(p.d_comm) == whole.subrange(144, 192),
        g1_bytes(p.z_comm) == whole.subrange(192, 240),
        g1_bytes(p.t_1_comm) == whole.subrange(240, 288),
        g1_bytes(p.t_2_comm) == whole.subrange(288, 336),
        g1_bytes(p.t_3_comm) == whole.subrange(336, 384),
        g1_bytes(p.t_4_comm) == whole.subrange(384, 432),
        opening_bytes(p.aw_opening) == whole.subrange(432, 513),
        opening_bytes(p.saw_opening) == whole.subrange(513, 594),
        scalar_le_bytes(p.evaluations.wire_evals.a_eval) == whole.subrange(594, 626),
        scalar_le_bytes(p.evaluations.wire_evals.b_eval) == whole.subrange(626, 658),
        scalar_le_bytes(p.evaluations.wire_evals.c_eval) == whole.subrange(658, 690),
        scalar_le_bytes(p.evaluations.wire_evals.d_eval) == whole.subrange(690, 722),
        scalar_le_bytes(p.evaluations.perm_evals.left_sigma_eval) == whole.subrange(722, 754),
        scalar_le_bytes(p.evaluations.perm_evals.right_sigma_eval) == whole.subrange(754, 786),
        scalar_le_bytes(p.evaluations.perm_evals.out_sigma_eval) == whole.subrange(786, 818),
        scalar_le_bytes(p.evaluations.perm_evals.permutation_eval) == whole.subrange(818, 850),
        scalar_le_bytes(p.evaluations.custom_evals.a_next_eval) == whole.subrange(850, 882),
        scalar_le_bytes(p.evaluations.custom_evals.b_next_eval) == whole.subrange(882, 914),
        scalar_le_bytes(p.evaluations.custom_evals.d_next_eval) == whole.subrange(914, 946),
        scalar_le_bytes(p.evaluations.custom_evals.q_l_eval) == whole.subrange(946, 978),
        scalar_le_bytes(p.evaluations.custom_evals.q_r_eval) == whole.subrange(978, 1010),
        scalar_le_bytes(p.evaluations.custom_evals.q_c_eval) == whole.subrange(1010, 1042),
{
    lemma_auto_spec_u64_to_from_le_bytes();
    lemma_opening_bytes_len(p.aw_opening);
    lemma_opening_bytes_len(p.saw_opening);
    assert(g1_bytes(p.a_comm) =~= whole.subrange(0, 48));
    assert(g1_bytes(p.b_comm) =~= whole.subrange(48, 96));
    assert(g1_bytes(p.c_comm) =~= whole.subrange(96, 144));
    assert(g1_bytes(p.d_comm) =~= whole.subrange(144, 192));
    assert(g1_bytes(p.z_comm) =~= whole.subrange(192, 240));
    assert(g1_bytes(p.t_1_comm) =~= whole.subrange(240, 288));
    assert(g1_bytes(p.t_2_comm) =~= whole.subrange(288, 336));
    assert(g1_bytes(p.t_3_comm) =~= whole.subrange(336, 384));
    assert(g1_bytes(p.t_4_comm) =~= whole.subrange(384, 432));
    assert(opening_bytes(p.aw_opening) =~= whole.subrange(432, 513));
    assert(opening_bytes(p.saw_opening) =~= whole.subrange(513, 594));
    assert(scalar_le_bytes(p.evaluations.wire_evals.a_eval) =~= whole.subrange(594, 626));
    assert(scalar_le_bytes(p.evaluations.wire_evals.b_eval) =~= whole.subrange(626, 658));
    assert(scalar_le_bytes(p.evaluations.wire_evals.c_eval) =~= whole.subrange(658, 690));
    assert(scalar_le_bytes(p.evaluations.wire_evals.d_eval) =~= whole.subrange(690, 722));
    assert(scalar_le_bytes(p.evaluations.perm_evals.left_sigma_eval) =~= whole.subrange(722, 754));
    assert(scalar_le_bytes(p.evaluations.perm_evals.right_sigma_eval) =~= whole.subrange(
        754,
        786,
    ));
    assert(scalar_le_bytes(p.evaluations.perm_evals.out_sigma_eval) =~= whole.subrange(786, 818));
    assert(scalar_le_bytes(p.evaluations.perm_evals.permutation_eval) =~= whole.subrange(
        818,
        850,
    ));
    assert(scalar_le_bytes(p.evaluations.custom_evals.a_next_eval) =~= whole.subrange(850, 882));
    assert(scalar_le_bytes(p.evaluations.custom_evals.b_next_eval) =~= whole.subrange(882, 914));
    assert(scalar_le_bytes(p.evaluations.custom_evals.d_next_eval) =~= whole.subrange(914, 946));
    assert(scalar_le_bytes(p.evaluations.custom_evals.q_l_eval) =~= whole.subrange(946, 978));
    assert(scalar_le_bytes(p.evaluations.custom_evals.q_r_eval) =~= whole.subrange(978, 1010));
    assert(scalar_le_bytes(p.evaluations.custom_evals.q_c_eval) =~= whole.subrange(1010, 1042));
}

/// A valid opening encoding is 81 bytes.
proof fn lemma_opening_bytes_len(o: OpeningProof)
    requires
        o.wf(),
    ensures
        opening_bytes(o).len() == 81,
{
    lemma_auto_spec_u64_to_from_le_bytes();
    match o.random_v {
        Some(v) => {
            assert(scalar_le_bytes(v).len() == 32);
        },
        None => {
        },
    }
}

} // verus!
