//! Committed relaxed R1CS: the instance carries commitments to `E` and `W`,
//! the witness carries the vectors and the blinding scalars that open them.
use vstd::prelude::*;

use crate::commitment::Point;
use crate::field::Scalar;
use crate::matrix::{dot_product, row_dot, row_in_range, DenseVectors, Element};
use crate::r1cs::{check_shape, relaxed_row_holds, relaxed_sat, shape_ok, R1csStructure};
use crate::transcript::ChallengeTranscript;

use merlin::Transcript;

verus! {

/// Label of the witness commitment's coordinates in a transcript.
pub const COMMIT_W: [u8; 8] = [99, 111, 109, 109, 105, 116, 45, 119];

/// Label of each public value in a transcript.
pub const X_VECTOR: [u8; 8] = [120, 45, 118, 101, 99, 116, 111, 114];

/// What an instance with witness commitment `w` and public values `x` adds to
/// a transcript: both coordinates of `w`, then each public value.
pub open spec fn instance_messages(w: Point, x: Seq<Scalar>) -> Seq<(Seq<u8>, Seq<u8>)> {
    seq![(COMMIT_W@, w.x_view()), (COMMIT_W@, w.y_view())] + Seq::new(
        x.len(),
        |i: int| (X_VECTOR@, x[i].bytes_view()),
    )
}

/// The public part: `(commit(E), u, commit(W), x)`.
#[derive(Debug)]
pub struct Instance {
    /// commitment to the error vector
    pub overline_e: Point,
    /// scalar
    pub u: Scalar,
    /// commitment to the witness vector
    pub overline_w: Point,
    /// public inputs and outputs
    pub x: DenseVectors,
}

impl Instance {
    pub fn get(&self) -> (r: (Point, Scalar, Point, DenseVectors))
        ensures
            r.0 == self.overline_e,
            r.1 == self.u,
            r.2 == self.overline_w,
            r.3.0@ == self.x.0@,
    {
        (self.overline_e, self.u, self.overline_w, self.x.duplicate())
    }

    /// Absorbs the public data that the folding challenge must depend on.
    pub fn append_to_transcript(&self, tr: &mut Transcript)
        ensures
            final(tr).log() == old(tr).log() + instance_messages(self.overline_w, self.x.0@),
    {
        tr.append_point(&COMMIT_W, &self.overline_w);
        let ghost start = tr.log();
        let mut i: usize = 0;
        while i < self.x.0.len()
            invariant
                i <= self.x.0@.len(),
                tr.log() == start + Seq::new(
                    i as nat,
                    |k: int| (X_VECTOR@, self.x.0@[k].bytes_view()),
                ),
            decreases self.x.0@.len() - i,
        {
            tr.append_scalar(&X_VECTOR, &self.x.0[i]);
            proof {
                assert(tr.log() =~= start + Seq::new(
                    (i + 1) as nat,
                    |k: int| (X_VECTOR@, self.x.0@[k].bytes_view()),
                ));
            }
            i += 1;
        }
        proof {
            assert(tr.log() =~= old(tr).log() + instance_messages(self.overline_w, self.x.0@));
        }
    }
}

/// The private part: `(E, r_E, W, r_W)`.
#[derive(Debug)]
pub struct Witness {
    /// error vector
    pub e: DenseVectors,
    /// blinding scalar of the commitment to E
    pub r_e: Scalar,
    /// intermediate values and private inputs
    pub w: DenseVectors,
    /// blinding scalar of the commitment to W
    pub r_w: Scalar,
}

impl Witness {
    pub fn get(&self) -> (r: (DenseVectors, Scalar, DenseVectors, Scalar))
        ensures
            r.0.0@ == self.e.0@,
            r.1 == self.r_e,
            r.2.0@ == self.w.0@,
            r.3 == self.r_w,
    {
        (self.e.duplicate(), self.r_e, self.w.duplicate(), self.r_w)
    }
}

/// A structure together with a committed relaxed instance and its opening.
#[derive(Debug)]
pub struct CommittedRelaxedR1csInstance {
    pub committed_relaxed_r1cs: R1csStructure,
    pub instance: Instance,
    pub witness: Witness,
}

impl CommittedRelaxedR1csInstance {
    /// `(A·Z) ∘ (B·Z) = u·(C·Z) + E` for `Z = (u, x, W)`, on the opening.
    pub fn is_sat(&self) -> (r: bool)
        ensures
            r == relaxed_sat(
                self.committed_relaxed_r1cs,
                self.instance.u.val(),
                self.instance.x@,
                self.witness.w@,
                self.witness.e@,
            ),
    {
        if self.instance.x.len() != self.committed_relaxed_r1cs.l || self.witness.e.len() != self.committed_relaxed_r1cs.m || !check_shape(
            &self.committed_relaxed_r1cs,
            self.witness.w.len(),
        ) {
            return false;
        }
        let u = self.instance.u;
        let mut i: usize = 0;
        while i < self.committed_relaxed_r1cs.m
            invariant
                self.instance.x@.len() == self.committed_relaxed_r1cs.l,
                self.witness.e@.len() == self.committed_relaxed_r1cs.m,
                shape_ok(self.committed_relaxed_r1cs, self.witness.w@.len() as int),
                u == self.instance.u,
                i <= self.committed_relaxed_r1cs.m,
                forall|j: int|
                    0 <= j < i ==> relaxed_row_holds(
                        self.committed_relaxed_r1cs,
                        j,
                        self.instance.u.val(),
                        self.instance.x@,
                        self.witness.w@,
                        self.witness.e@,
                    ),
            decreases self.committed_relaxed_r1cs.m - i,
        {
            proof {
                assert(self.committed_relaxed_r1cs.a@[i as int] == self.committed_relaxed_r1cs.a.0@[i as int]@);
                assert(self.committed_relaxed_r1cs.b@[i as int] == self.committed_relaxed_r1cs.b.0@[i as int]@);
                assert(self.committed_relaxed_r1cs.c@[i as int] == self.committed_relaxed_r1cs.c.0@[i as int]@);
            }
            let a_prod = self.dot_product(&self.committed_relaxed_r1cs.a.0[i]);
            let b_prod = self.dot_product(&self.committed_relaxed_r1cs.b.0[i]);
            let c_prod = self.dot_product(&self.committed_relaxed_r1cs.c.0[i]).mul(&u);
            if !a_prod.mul(&b_prod).equals(&c_prod.add(&self.witness.e.0[i])) {
                proof {
                    assert(!relaxed_row_holds(
                        self.committed_relaxed_r1cs,
                        i as int,
                        self.instance.u.val(),
                        self.instance.x@,
                        self.witness.w@,
                        self.witness.e@,
                    ));
                }
                return false;
            }
            i += 1;
        }
        true
    }

    /// The dot product of one row with `Z = (u, x, W)`.
    fn dot_product(&self, row: &Vec<Element>) -> (r: Scalar)
        requires
            row_in_range(row@, self.instance.x@.len() as int, self.witness.w@.len() as int),
        ensures
            r.val() == row_dot(row@, self.instance.u.val(), self.instance.x@, self.witness.w@),
    {
        dot_product(row, &self.instance.u, &self.instance.x.0, &self.witness.w.0)
    }
}

} // verus!
