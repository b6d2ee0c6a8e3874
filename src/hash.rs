//! A personalised BLAKE2b-512 digest whose output is read as a field element.
use vstd::prelude::*;

use crate::field::{le_value, modulus, Scalar};

use blake2b_simd::{Params, State};

verus! {

#[verifier::external_type_specification]
#[verifier::external_body]
pub struct ExState(State);

/// The personalisation of every digest of this library: `Nova_foldingHash`.
pub const PERSONAL: [u8; 16] = [78, 111, 118, 97, 95, 102, 111, 108, 100, 105, 110, 103, 72, 97, 115, 104];

/// The bytes that a BLAKE2b state has been fed.
pub uninterp spec fn fed(s: State) -> Seq<u8>;

/// The personalisation that a BLAKE2b state was made with.
pub uninterp spec fn personal_of(s: State) -> Seq<u8>;

/// The 64-byte BLAKE2b digest of `input` under the personalisation `personal`.
pub uninterp spec fn blake2b_512(personal: Seq<u8>, input: Seq<u8>) -> Seq<u8>;

/// Relies on `blake2b_simd::Params`: a fresh state with 64-byte output and the
/// given personalisation.
#[verifier::external_body]
fn new_state(personal: &[u8; 16]) -> (r: State)
    ensures
        fed(r) == Seq::<u8>::empty(),
        personal_of(r) == personal@,
{
    Params::new().hash_length(64).personal(personal).to_state()
}

/// Relies on `blake2b_simd::State::update`.
#[verifier::external_body]
fn update_state(s: &mut State, bytes: &[u8])
    ensures
        fed(*final(s)) == fed(*old(s)) + bytes@,
        personal_of(*final(s)) == personal_of(*old(s)),
{
    s.update(bytes);
}

/// Relies on `blake2b_simd::State::finalize`: the digest of everything fed.
#[verifier::external_body]
fn finalize_state(s: &State) -> (r: [u8; 64])
    ensures
        r@ == blake2b_512(personal_of(*s), fed(*s)),
{
    *s.finalize().as_array()
}

/// A running digest.
pub struct Digest(State);

impl Digest {
    /// The bytes fed so far.
    pub closed spec fn input(self) -> Seq<u8> {
        fed(self.0)
    }

    /// The state carries this library's personalisation.
    pub closed spec fn wf(self) -> bool {
        personal_of(self.0) == PERSONAL@
    }

    pub fn update(&mut self, bytes: &[u8])
        requires
            old(self).wf(),
        ensures
            final(self).wf(),
            final(self).input() == old(self).input() + bytes@,
    {
        update_state(&mut self.0, bytes);
    }

    /// The digest of everything fed, reduced into the field.
    pub fn finalize(&self) -> (r: Scalar)
        requires
            self.wf(),
        ensures
            r.val() == le_value(blake2b_512(PERSONAL@, self.input())) as int % modulus(),
    {
        let digest = finalize_state(&self.0);
        Scalar::from_bytes_wide(&digest)
    }
}

impl Default for Digest {
    /// Nothing fed yet.
    fn default() -> (r: Self)
        ensures
            r.wf(),
            r.input() == Seq::<u8>::empty(),
    {
        Digest(new_state(&PERSONAL))
    }
}

} // verus!
