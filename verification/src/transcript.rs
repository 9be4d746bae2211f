//! Fiat-Shamir transcript layer.
//!
//! The transcript pairs `merlin`'s sequential hash state with a ghost log of
//! every operation performed on it.  The hash state stays opaque; the
//! contracts speak of the log.  `merlin` is deterministic, so the bytes a
//! challenge yields are a function of the log and the label alone — named by
//! `challenge_bytes_of` — and every append is recorded, which lets callers
//! state the exact operation order the protocol's security rests on.

use vstd::prelude::*;
use crate::commitment::{commitment_to_bytes, g1_bytes, Commitment};
use crate::field::{
    fr_order, le_bytes_nat, lemma_scalar_of_nat_val, scalar_from_le_bytes_mod_order,
    scalar_of_nat, Scalar,
};
use vstd::bytes::{spec_u64_to_le_bytes, u64_to_le_bytes};

verus! {

/// Declares `merlin`'s transcript state to the verifier; the state itself
/// stays opaque.
#[verifier::external_type_specification]
#[verifier::external_body]
pub struct ExTranscript(merlin::Transcript);

/// One recorded transcript operation.
pub enum TranscriptOp {
    /// The protocol label the transcript was created with.
    Init { label: Seq<char> },
    /// Labelled bytes appended.
    Append { label: Seq<char>, message: Seq<u8> },
    /// A 64-byte challenge drawn under a label (which also advances the
    /// state).
    Challenge { label: Seq<char> },
}

/// The Fiat-Shamir transcript: `merlin`'s hash state paired with the ghost
/// log of the operations performed on it, oldest first.  The fields are
/// private, so the log can only grow through the functions below, and the
/// hash state is always the deterministic function of the log.
pub struct ProtocolTranscript {
    inner: merlin::Transcript,
    history: Ghost<Seq<TranscriptOp>>,
}

impl ProtocolTranscript {
    /// The operations performed so far, oldest first.
    pub closed spec fn ops(self) -> Seq<TranscriptOp> {
        self.history@
    }
}

/// The 64 bytes `merlin` yields for a challenge drawn under a label after
/// the given operations: a function of the log and the label alone.
pub uninterp spec fn challenge_bytes_of(ops: Seq<TranscriptOp>, label: Seq<char>) -> Seq<u8>;

/// The field element a challenge reduces to.
pub open spec fn challenge_value(ops: Seq<TranscriptOp>, label: Seq<char>) -> nat {
    le_bytes_nat(challenge_bytes_of(ops, label)) % fr_order()
}

/// The scalar a challenge yields, limbs included.
pub open spec fn challenge_scalar_spec(ops: Seq<TranscriptOp>, label: Seq<char>) -> Scalar {
    scalar_of_nat(challenge_value(ops, label))
}

/// A fresh merlin state.  Relies on `merlin::Transcript::new`.
#[verifier::external_body]
fn merlin_new(label: &'static str) -> (r: merlin::Transcript) {
    merlin::Transcript::new(label.as_bytes())
}

/// Creates a transcript seeded with a protocol label; the log records the
/// seed, so differently seeded transcripts have different logs.
pub fn transcript_new(label: &'static str) -> (r: ProtocolTranscript)
    ensures
        r.ops() == seq![TranscriptOp::Init { label: label@ }],
{
    let ghost h = seq![TranscriptOp::Init { label: label@ }];
    ProtocolTranscript { inner: merlin_new(label), history: Ghost(h) }
}

/// Appends labelled bytes to the transcript.  Relies on
/// `merlin::Transcript::append_message`; the log gains the matching entry.
#[verifier::external_body]
pub fn transcript_append_bytes(t: &mut ProtocolTranscript, label: &'static str, bytes: &Vec<u8>)
    ensures
        final(t).ops() == old(t).ops().push(
            TranscriptOp::Append { label: label@, message: bytes@ },
        ),
{
    t.inner.append_message(label.as_bytes(), bytes.as_slice());
}

/// Draws 64 challenge bytes.  Relies on `merlin::Transcript::challenge_bytes`
/// being a deterministic function of the state, which the log determines; the
/// draw also ratchets the state, which the log records.
#[verifier::external_body]
fn transcript_challenge_bytes(t: &mut ProtocolTranscript, label: &'static str) -> (r: Vec<u8>)
    ensures
        r@.len() == 64,
        r@ == challenge_bytes_of(old(t).ops(), label@),
        final(t).ops() == old(t).ops().push(TranscriptOp::Challenge { label: label@ }),
{
    let mut buf = vec![0u8; 64];
    t.inner.challenge_bytes(label.as_bytes(), &mut buf);
    buf
}

/// The canonical 32-byte little-endian encoding of a scalar.
pub open spec fn scalar_le_bytes(s: Scalar) -> Seq<u8> {
    spec_u64_to_le_bytes(s.l0) + spec_u64_to_le_bytes(s.l1) + spec_u64_to_le_bytes(s.l2)
        + spec_u64_to_le_bytes(s.l3)
}

/// Encodes a scalar as its 32 little-endian bytes.
pub fn scalar_to_bytes(s: &Scalar) -> (r: Vec<u8>)
    ensures
        r@.len() == 32,
        r@ == scalar_le_bytes(*s),
{
    let mut out = u64_to_le_bytes(s.l0);
    let mut b1 = u64_to_le_bytes(s.l1);
    let mut b2 = u64_to_le_bytes(s.l2);
    let mut b3 = u64_to_le_bytes(s.l3);
    out.append(&mut b1);
    out.append(&mut b2);
    out.append(&mut b3);
    out
}

/// Appends a scalar under a label, in the same canonical little-endian
/// encoding the prover uses.
pub fn transcript_append_scalar(t: &mut ProtocolTranscript, label: &'static str, s: &Scalar)
    ensures
        final(t).ops() == old(t).ops().push(
            TranscriptOp::Append { label: label@, message: scalar_le_bytes(*s) },
        ),
{
    let bytes = scalar_to_bytes(s);
    transcript_append_bytes(t, label, &bytes);
}

/// Appends a commitment under a label, in its compressed encoding.
pub fn transcript_append_commitment(
    t: &mut ProtocolTranscript,
    label: &'static str,
    c: &Commitment,
)
    ensures
        final(t).ops() == old(t).ops().push(
            TranscriptOp::Append { label: label@, message: g1_bytes(*c) },
        ),
{
    let bytes = commitment_to_bytes(c);
    transcript_append_bytes(t, label, &bytes);
}

/// Derives a challenge scalar: 64 transcript bytes reduced into the field.
/// The result is the deterministic function of the log that
/// `challenge_scalar_spec` names.
pub fn challenge_scalar(t: &mut ProtocolTranscript, label: &'static str) -> (r: Scalar)
    ensures
        r.wf(),
        r.val() == challenge_value(old(t).ops(), label@),
        r == challenge_scalar_spec(old(t).ops(), label@),
        final(t).ops() == old(t).ops().push(TranscriptOp::Challenge { label: label@ }),
{
    let bytes = transcript_challenge_bytes(t, label);
    let s = scalar_from_le_bytes_mod_order(&bytes);
    proof {
        lemma_scalar_of_nat_val(s);
    }
    s
}

} // verus!
