//! Pedersen vector commitments over the Jubjub curve.
//!
//! Points are held as the canonical bytes of their affine coordinates. The
//! group law is Jubjub's own: `ec_add` and `ec_mul` name what its addition and
//! scalar multiplication return, and every contract here is stated over them.
use vstd::arithmetic::power2::{lemma_pow2_unfold, pow2};
use vstd::prelude::*;

use crate::committed_relaxed_r1cs::{
    CommittedRelaxedR1csInstance, Instance as CommittedInstance, Witness as CommittedWitness,
};
use crate::field::{le_value, modulus, Scalar};
use crate::hash::{blake2b_512, Digest, PERSONAL};
use crate::matrix::{vals, DenseVectors};
use crate::r1cs::same_structure;
use crate::relaxed_r1cs::RelaxedR1csInstance;

use jub_jub::{Fp, Fr, JubjubAffine};
use rand_core::OsRng;
use zkstd::common::{SigUtils, TwistedEdwardsCurve};

verus! {

#[verifier::external_type_specification]
#[verifier::external_body]
pub struct ExOsRng(OsRng);

/// A point of the Jubjub curve in affine coordinates.
///
/// Only the operations below build a `Point`, so every value lies on the curve.
#[derive(Clone, Copy, Debug, PartialEq, Eq)]
pub struct Point {
    x: [u8; 32],
    y: [u8; 32],
}

/// The sum of two points under Jubjub's group law.
pub uninterp spec fn ec_add(p: Point, q: Point) -> Point;

/// The compressed 32-byte encoding of a point.
pub uninterp spec fn encoding(p: Point) -> Seq<u8>;

/// The encodings of `g`, one after the other.
pub open spec fn encodings(g: Seq<Point>) -> Seq<u8>
    decreases g.len(),
{
    if g.len() == 0 {
        Seq::empty()
    } else {
        encodings(g.drop_last()) + encoding(g.last())
    }
}

/// The point `p` added to itself `s` times.
pub uninterp spec fn ec_mul(p: Point, s: int) -> Point;

/// The point is the neutral element `(0, 1)`.
pub open spec fn is_identity(p: Point) -> bool {
    &&& p.x_view() == Seq::new(32, |i: int| 0u8)
    &&& p.y_view() == Seq::new(32, |i: int| if i == 0 { 1u8 } else { 0u8 })
}

impl Point {
    /// The affine x coordinate, as little-endian bytes.
    pub closed spec fn x_view(self) -> Seq<u8> {
        self.x@
    }

    /// The affine y coordinate, as little-endian bytes.
    pub closed spec fn y_view(self) -> Seq<u8> {
        self.y@
    }

    /// The neutral element `(0, 1)`.
    pub fn identity() -> (r: Point)
        ensures
            is_identity(r),
    {
        let x = [0u8; 32];
        let mut y = [0u8; 32];
        y.set(0, 1);
        proof {
            assert(x@ =~= Seq::new(32, |i: int| 0u8));
            assert(y@ =~= Seq::new(32, |i: int| if i == 0 { 1u8 } else { 0u8 }));
        }
        Point { x, y }
    }

    /// Canonical little-endian bytes of the affine x coordinate.
    pub fn x_bytes(&self) -> (r: [u8; 32])
        ensures
            r@ == self.x_view(),
    {
        self.x
    }

    /// Canonical little-endian bytes of the affine y coordinate.
    pub fn y_bytes(&self) -> (r: [u8; 32])
        ensures
            r@ == self.y_view(),
    {
        self.y
    }

    /// Relies on `SigUtils::to_bytes` of `JubjubAffine`: the 32-byte compressed
    /// encoding.
    #[verifier::external_body]
    pub fn to_raw_bytes(&self) -> (r: [u8; 32])
        ensures
            r@ == encoding(*self),
    {
        let p = JubjubAffine::from_raw_unchecked(
            Fr::from_bytes(self.x).unwrap(),
            Fr::from_bytes(self.y).unwrap(),
        );
        p.to_bytes()
    }

    /// Relies on `JubjubAffine::random`: a point drawn from `rng`; nothing is
    /// promised of which.
    #[verifier::external_body]
    pub fn random(rng: &mut OsRng) -> (r: Point) {
        let p = JubjubAffine::random(rng);
        Point { x: p.get_x().to_bytes(), y: p.get_y().to_bytes() }
    }

    /// Relies on `JubjubAffine + JubjubAffine`, brought back to affine form.
    #[verifier::external_body]
    pub fn add(&self, rhs: &Point) -> (r: Point)
        ensures
            r == ec_add(*self, *rhs),
    {
        let p = JubjubAffine::from_raw_unchecked(
            Fr::from_bytes(self.x).unwrap(),
            Fr::from_bytes(self.y).unwrap(),
        );
        let q = JubjubAffine::from_raw_unchecked(
            Fr::from_bytes(rhs.x).unwrap(),
            Fr::from_bytes(rhs.y).unwrap(),
        );
        let s = JubjubAffine::from(p + q);
        Point { x: s.get_x().to_bytes(), y: s.get_y().to_bytes() }
    }

    /// Relies on `JubjubAffine * Fp`, brought back to affine form.
    #[verifier::external_body]
    pub fn mul(&self, s: &Scalar) -> (r: Point)
        ensures
            r == ec_mul(*self, s.val()),
    {
        let p = JubjubAffine::from_raw_unchecked(
            Fr::from_bytes(self.x).unwrap(),
            Fr::from_bytes(self.y).unwrap(),
        );
        let q = JubjubAffine::from(p * Fp::from_bytes(s.bytes).unwrap());
        Point { x: q.get_x().to_bytes(), y: q.get_y().to_bytes() }
    }
}

/// `r·h + v_0·g_0 + v_1·g_1 + ...`, summed from the left.
pub open spec fn commit_spec(h: Point, g: Seq<Point>, v: Seq<int>, r: int) -> Point
    decreases v.len(),
{
    if v.len() == 0 {
        ec_mul(h, r)
    } else {
        ec_add(commit_spec(h, g, v.drop_last(), r), ec_mul(g[v.len() - 1], v.last()))
    }
}

/// Committing to the empty vector gives exactly `r·h`.
pub proof fn lemma_commit_empty(h: Point, g: Seq<Point>, r: int)
    ensures
        commit_spec(h, g, Seq::empty(), r) == ec_mul(h, r),
{
}

/// The cofactor of the Jubjub curve: its group has order `8·modulus()`.
pub const COFACTOR: u64 = 8;

/// A point of the subgroup of prime order drawn from `rng`: a random curve
/// point times the cofactor. Scalars act on that subgroup modulo the prime,
/// which the homomorphism of the commitment needs.
pub fn random_generator(rng: &mut OsRng) -> (r: Point)
    ensures
        exists|p: Point| r == ec_mul(p, COFACTOR as int),
{
    let p = Point::random(rng);
    let r = p.mul(&Scalar::from_u64(COFACTOR));
    proof {
        vstd::arithmetic::div_mod::lemma_small_mod(COFACTOR as nat, crate::field::modulus() as nat);
    }
    r
}

/// The Pedersen commitment parameters, under the name the digest is known by.
pub type PedersenCommitment = CommitmentScheme;

/// Public parameters of the Pedersen commitment: a blinding base `h` and the
/// generators `g_0, g_1, ...`.
pub struct CommitmentScheme {
    pub h: Point,
    pub domain: Vec<Point>,
}

impl CommitmentScheme {
    /// Draws `h` and `2^n + 1` generators of the prime-order subgroup from `rng`.
    pub fn new(n: u64, rng: &mut OsRng) -> (r: CommitmentScheme)
        requires
            n < 31,
        ensures
            r.domain@.len() == pow2(n as nat) + 1,
            exists|p: Point| r.h == ec_mul(p, COFACTOR as int),
            forall|i: int|
                0 <= i < r.domain@.len() ==> exists|p: Point| #[trigger] r.domain@[i] == ec_mul(p, COFACTOR as int),
    {
        let mut size: u32 = 1;
        let mut k: u64 = 0;
        proof {
            vstd::arithmetic::power2::lemma2_to64();
        }
        while k < n
            invariant
                k <= n < 31,
                size == pow2(k as nat),
            decreases n - k,
        {
            proof {
                lemma_pow2_unfold((k + 1) as nat);
                vstd::arithmetic::power2::lemma_pow2_strictly_increases((k + 1) as nat, 31);
                vstd::arithmetic::power2::lemma2_to64();
            }
            size = size * 2;
            k += 1;
        }
        proof {
            vstd::arithmetic::power2::lemma_pow2_strictly_increases(n as nat, 31);
            vstd::arithmetic::power2::lemma2_to64();
        }
        let h = random_generator(rng);
        let mut domain: Vec<Point> = Vec::new();
        let mut i: u32 = 0;
        while i <= size
            invariant
                size == pow2(n as nat),
                size < 0x8000_0000,
                i <= size + 1,
                domain@.len() == i,
                forall|j: int|
                    0 <= j < i ==> exists|p: Point| #[trigger] domain@[j] == ec_mul(p, COFACTOR as int),
            decreases size + 1 - i,
        {
            domain.push(random_generator(rng));
            i += 1;
        }
        CommitmentScheme { h, domain }
    }

    /// `r·h + Σ v_i·g_i`. A vector longer than the generator list is a misuse.
    pub fn commit(&self, v: &DenseVectors, r: &Scalar) -> (c: Point)
        requires
            v@.len() <= self.domain@.len(),
        ensures
            c == commit_spec(self.h, self.domain@, vals(v.0@), r.val()),
    {
        let mut acc = self.h.mul(r);
        let mut i: usize = 0;
        proof {
            assert(v@.len() == v.0@.len());
        }
        while i < v.0.len()
            invariant
                i <= v.0@.len() <= self.domain@.len(),
                acc == commit_spec(self.h, self.domain@, vals(v.0@).take(i as int), r.val()),
            decreases v.0@.len() - i,
        {
            acc = acc.add(&self.domain[i].mul(&v.0[i]));
            proof {
                assert(vals(v.0@).take(i + 1).drop_last() =~= vals(v.0@).take(i as int));
            }
            i += 1;
        }
        proof {
            assert(vals(v.0@).take(v.0@.len() as int) =~= vals(v.0@));
        }
        acc
    }

    /// A field element that identifies the generators: the personalised
    /// BLAKE2b digest of their encodings.
    pub fn digest(&self) -> (r: Scalar)
        ensures
            r.val() == le_value(blake2b_512(PERSONAL@, encodings(self.domain@))) as int % modulus(),
    {
        let mut hasher = Digest::default();
        let mut i: usize = 0;
        while i < self.domain.len()
            invariant
                i <= self.domain@.len(),
                hasher.wf(),
                hasher.input() == encodings(self.domain@.take(i as int)),
            decreases self.domain@.len() - i,
        {
            let bytes = self.domain[i].to_raw_bytes();
            hasher.update(bytes.as_slice());
            proof {
                assert(self.domain@.take(i + 1).drop_last() =~= self.domain@.take(i as int));
            }
            i += 1;
        }
        proof {
            assert(self.domain@.take(self.domain@.len() as int) =~= self.domain@);
        }
        hasher.finalize()
    }

    /// The number of generators.
    pub fn size(&self) -> (r: usize)
        ensures
            r == self.domain@.len(),
    {
        self.domain.len()
    }

    /// Commits to `E` and `W` of a relaxed instance with the given blinding
    /// scalars; the opening keeps the vectors and the scalars.
    pub fn commit_relaxed_r1cs_instance(
        &self,
        relaxed: &RelaxedR1csInstance,
        r_e: &Scalar,
        r_w: &Scalar,
    ) -> (r: CommittedRelaxedR1csInstance)
        requires
            relaxed.witness.e@.len() <= self.domain@.len(),
            relaxed.witness.w@.len() <= self.domain@.len(),
        ensures
            same_structure(r.committed_relaxed_r1cs, relaxed.r1cs),
            r.instance.overline_e == commit_spec(self.h, self.domain@, relaxed.witness.e@, r_e.val()),
            r.instance.u == relaxed.instance.u,
            r.instance.overline_w == commit_spec(self.h, self.domain@, relaxed.witness.w@, r_w.val()),
            r.instance.x.0@ == relaxed.instance.x.0@,
            r.witness.e.0@ == relaxed.witness.e.0@,
            r.witness.r_e == *r_e,
            r.witness.w.0@ == relaxed.witness.w.0@,
            r.witness.r_w == *r_w,
    {
        let instance = CommittedInstance {
            overline_e: self.commit(&relaxed.witness.e, r_e),
            u: relaxed.instance.u,
            overline_w: self.commit(&relaxed.witness.w, r_w),
            x: relaxed.instance.x.duplicate(),
        };
        let witness = CommittedWitness {
            e: relaxed.witness.e.duplicate(),
            r_e: *r_e,
            w: relaxed.witness.w.duplicate(),
            r_w: *r_w,
        };
        CommittedRelaxedR1csInstance {
            committed_relaxed_r1cs: relaxed.r1cs.duplicate(),
            instance,
            witness,
        }
    }
}

} // verus!
