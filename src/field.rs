//! Elements of the Jubjub scalar field, held as canonical little-endian bytes.
//!
//! The arithmetic itself is done by `jub_jub::Fp`; each operation here states
//! its result as an integer modulo the field's prime.
use vstd::arithmetic::div_mod::{
    lemma_add_mod_noop, lemma_mod_bound, lemma_mod_twice, lemma_mul_mod_noop, lemma_small_mod,
    lemma_sub_mod_noop,
};
use vstd::prelude::*;

use jub_jub::Fp;
use zkstd::common::{FftField, PrimeField, SigUtils};

verus! {

/// The prime order of the Jubjub scalar field.
pub open spec fn modulus() -> int {
    (0x0e7db4ea6533afa906673b0101343b00 * 0x1_0000_0000_0000_0000 * 0x1_0000_0000_0000_0000
        + 0xa6682093ccc81082d0970e5ed6f72cb7) as int
}

/// The number that a little-endian byte string denotes.
pub open spec fn le_value(b: Seq<u8>) -> nat
    decreases b.len(),
{
    if b.len() == 0 {
        0
    } else {
        b[0] as nat + 256 * le_value(b.subrange(1, b.len() as int))
    }
}

/// Field addition on representatives.
pub open spec fn fadd(a: int, b: int) -> int {
    (a + b) % modulus()
}

/// Field subtraction on representatives.
pub open spec fn fsub(a: int, b: int) -> int {
    (a - b) % modulus()
}

/// Field multiplication on representatives.
pub open spec fn fmul(a: int, b: int) -> int {
    (a * b) % modulus()
}

/// `a` and `b` stand for the same field element.
pub open spec fn eqv(a: int, b: int) -> bool {
    a % modulus() == b % modulus()
}

pub proof fn lemma_modulus_pos()
    ensures
        modulus() > 1,
{
}

/// A representative stands for the same element as its reduction.
pub proof fn lemma_eqv_mod(a: int)
    ensures
        eqv(a % modulus(), a),
        0 <= a % modulus() < modulus(),
{
    lemma_mod_twice(a, modulus());
    lemma_mod_bound(a, modulus());
}

/// A reduced representative is its own reduction.
pub proof fn lemma_reduced(a: int)
    requires
        0 <= a < modulus(),
    ensures
        a % modulus() == a,
{
    lemma_small_mod(a as nat, modulus() as nat);
}

pub proof fn lemma_eqv_add(a: int, a2: int, b: int, b2: int)
    requires
        eqv(a, a2),
        eqv(b, b2),
    ensures
        eqv(a + b, a2 + b2),
{
    lemma_add_mod_noop(a, b, modulus());
    lemma_add_mod_noop(a2, b2, modulus());
}

pub proof fn lemma_eqv_sub(a: int, a2: int, b: int, b2: int)
    requires
        eqv(a, a2),
        eqv(b, b2),
    ensures
        eqv(a - b, a2 - b2),
{
    lemma_sub_mod_noop(a, b, modulus());
    lemma_sub_mod_noop(a2, b2, modulus());
}

pub proof fn lemma_eqv_mul(a: int, a2: int, b: int, b2: int)
    requires
        eqv(a, a2),
        eqv(b, b2),
    ensures
        eqv(a * b, a2 * b2),
{
    lemma_mul_mod_noop(a, b, modulus());
    lemma_mul_mod_noop(a2, b2, modulus());
}

/// Each field operation stands for the integer operation.
pub proof fn lemma_eqv_ops(a: int, b: int)
    ensures
        eqv(fadd(a, b), a + b),
        eqv(fsub(a, b), a - b),
        eqv(fmul(a, b), a * b),
        0 <= fadd(a, b) < modulus(),
        0 <= fsub(a, b) < modulus(),
        0 <= fmul(a, b) < modulus(),
{
    lemma_eqv_mod(a + b);
    lemma_eqv_mod(a - b);
    lemma_eqv_mod(a * b);
}

/// An element of the scalar field, stored as its canonical 32-byte encoding.
#[derive(Clone, Copy, Debug, PartialEq, Eq)]
pub struct Scalar {
    pub(crate) bytes: [u8; 32],
}

impl Scalar {
    /// The integer in `0..modulus()` that this element stands for.
    pub closed spec fn val(self) -> int {
        le_value(self.bytes@) as int
    }

    /// The canonical little-endian encoding.
    pub closed spec fn bytes_view(self) -> Seq<u8> {
        self.bytes@
    }

    #[verifier::type_invariant]
    spec fn canonical(self) -> bool {
        self.val() < modulus()
    }

    /// Relies on `Fp: From<u64>`: the element whose value is `n`.
    #[verifier::external_body]
    pub fn from_u64(n: u64) -> (r: Scalar)
        ensures
            r.val() == n as int % modulus(),
    {
        Scalar { bytes: Fp::from(n).to_bytes() }
    }

    /// Relies on `Fp::from_bytes`: accepts exactly the canonical encodings.
    #[verifier::external_body]
    pub fn from_bytes(bytes: [u8; 32]) -> (r: Option<Scalar>)
        ensures
            r.is_some() <==> le_value(bytes@) < modulus(),
            r.is_some() ==> r.unwrap().val() == le_value(bytes@),
    {
        match Fp::from_bytes(bytes) {
            Some(f) => Some(Scalar { bytes: f.to_bytes() }),
            None => None,
        }
    }

    /// Relies on `Fp::from_hash`: 64 little-endian bytes reduced modulo the prime.
    #[verifier::external_body]
    pub fn from_bytes_wide(bytes: &[u8; 64]) -> (r: Scalar)
        ensures
            r.val() == le_value(bytes@) as int % modulus(),
    {
        Scalar { bytes: Fp::from_hash(bytes).to_bytes() }
    }

    /// The canonical little-endian encoding.
    pub fn to_bytes(&self) -> (r: [u8; 32])
        ensures
            r@ == self.bytes_view(),
            le_value(r@) == self.val(),
    {
        self.bytes
    }

    /// Relies on `Fp`'s `Add`.
    #[verifier::external_body]
    pub fn add(&self, rhs: &Scalar) -> (r: Scalar)
        ensures
            r.val() == fadd(self.val(), rhs.val()),
    {
        let a = Fp::from_bytes(self.bytes).unwrap();
        let b = Fp::from_bytes(rhs.bytes).unwrap();
        Scalar { bytes: (a + b).to_bytes() }
    }

    /// Relies on `Fp`'s `Sub`.
    #[verifier::external_body]
    pub fn sub(&self, rhs: &Scalar) -> (r: Scalar)
        ensures
            r.val() == fsub(self.val(), rhs.val()),
    {
        let a = Fp::from_bytes(self.bytes).unwrap();
        let b = Fp::from_bytes(rhs.bytes).unwrap();
        Scalar { bytes: (a - b).to_bytes() }
    }

    /// Relies on `Fp`'s `Mul`.
    #[verifier::external_body]
    pub fn mul(&self, rhs: &Scalar) -> (r: Scalar)
        ensures
            r.val() == fmul(self.val(), rhs.val()),
    {
        let a = Fp::from_bytes(self.bytes).unwrap();
        let b = Fp::from_bytes(rhs.bytes).unwrap();
        Scalar { bytes: (a * b).to_bytes() }
    }

    /// Relies on `PrimeField::square` of `Fp`.
    #[verifier::external_body]
    pub fn square(&self) -> (r: Scalar)
        ensures
            r.val() == fmul(self.val(), self.val()),
    {
        Scalar { bytes: Fp::from_bytes(self.bytes).unwrap().square().to_bytes() }
    }

    /// Relies on `Fp`'s `PartialEq`: elements are equal when their values are.
    #[verifier::external_body]
    pub fn equals(&self, rhs: &Scalar) -> (r: bool)
        ensures
            r == (self.val() == rhs.val()),
    {
        Fp::from_bytes(self.bytes).unwrap() == Fp::from_bytes(rhs.bytes).unwrap()
    }

    /// The additive identity.
    pub fn zero() -> (r: Scalar)
        ensures
            r.val() == 0,
    {
        Scalar::from_u64(0)
    }

    /// The multiplicative identity.
    pub fn one() -> (r: Scalar)
        ensures
            r.val() == 1,
    {
        let r = Scalar::from_u64(1);
        proof {
            lemma_small_mod(1, modulus() as nat);
        }
        r
    }
}

} // verus!
