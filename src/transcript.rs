//! The Fiat-Shamir transcript: a merlin transcript that absorbs points and
//! scalars and draws challenge scalars from everything absorbed so far.
use vstd::prelude::*;

use crate::commitment::Point;
use crate::field::{le_value, modulus, Scalar};

use merlin::Transcript;

verus! {

#[verifier::external_type_specification]
#[verifier::external_body]
pub struct ExTranscript(Transcript);

/// The label under which merlin absorbs a transcript's own name.
pub const DOM_SEP: [u8; 7] = [100, 111, 109, 45, 115, 101, 112];

/// The (label, message) pairs that a transcript has absorbed, oldest first.
pub uninterp spec fn absorbed(t: Transcript) -> Seq<(Seq<u8>, Seq<u8>)>;

/// The 64 bytes that a transcript which absorbed `log` draws under `label`.
pub uninterp spec fn challenge_of(log: Seq<(Seq<u8>, Seq<u8>)>, label: Seq<u8>) -> Seq<u8>;

/// Relies on `merlin::Transcript::new`, which absorbs `label` under `dom-sep`.
#[verifier::external_body]
pub fn new_transcript(label: &'static [u8]) -> (r: Transcript)
    ensures
        absorbed(r) == seq![(DOM_SEP@, label@)],
{
    Transcript::new(label)
}

/// Relies on `merlin::Transcript::append_message`, which panics on a message
/// longer than `u32::MAX`.
#[verifier::external_body]
fn append_message(t: &mut Transcript, label: &'static [u8], message: &[u8])
    requires
        message@.len() <= u32::MAX,
    ensures
        absorbed(*final(t)) == absorbed(*old(t)).push((label@, message@)),
{
    t.append_message(label, message)
}

/// Relies on `merlin::Transcript::challenge_bytes`: the bytes depend only on
/// what was absorbed and on the label.
#[verifier::external_body]
fn challenge_bytes(t: &mut Transcript, label: &'static [u8]) -> (r: [u8; 64])
    ensures
        r@ == challenge_of(absorbed(*old(t)), label@),
{
    let mut buf = [0u8; 64];
    t.challenge_bytes(label, &mut buf);
    buf
}

/// A transcript that absorbs curve points and field elements and derives
/// field elements from them.
pub trait ChallengeTranscript: Sized {
    /// The (label, message) pairs absorbed so far.
    spec fn log(&self) -> Seq<(Seq<u8>, Seq<u8>)>;

    /// Absorbs both affine coordinates of `v`.
    fn append_point(&mut self, label: &'static [u8], v: &Point)
        ensures
            final(self).log() == old(self).log().push((label@, v.x_view())).push(
                (label@, v.y_view()),
            ),
    ;

    /// Absorbs the canonical encoding of `v`.
    fn append_scalar(&mut self, label: &'static [u8], v: &Scalar)
        ensures
            final(self).log() == old(self).log().push((label@, v.bytes_view())),
    ;

    /// Draws a field element from everything absorbed so far.
    fn challenge_scalar(&mut self, label: &'static [u8]) -> (r: Scalar)
        ensures
            r.val() == le_value(challenge_of(old(self).log(), label@)) as int % modulus(),
    ;
}

impl ChallengeTranscript for Transcript {
    open spec fn log(&self) -> Seq<(Seq<u8>, Seq<u8>)> {
        absorbed(*self)
    }

    fn append_point(&mut self, label: &'static [u8], v: &Point) {
        let x = v.x_bytes();
        let y = v.y_bytes();
        append_message(self, label, x.as_slice());
        append_message(self, label, y.as_slice());
    }

    fn append_scalar(&mut self, label: &'static [u8], v: &Scalar) {
        let bytes = v.to_bytes();
        append_message(self, label, bytes.as_slice());
    }

    fn challenge_scalar(&mut self, label: &'static [u8]) -> (r: Scalar) {
        let buf = challenge_bytes(self, label);
        Scalar::from_bytes_wide(&buf)
    }
}

} // verus!
