//! Relaxed R1CS: an error vector `E` and a scalar `u` added to each
//! assignment, with the relation `(A·Z) ∘ (B·Z) = u·(C·Z) + E`.
use vstd::prelude::*;

use crate::commitment::{ec_add, ec_mul, is_identity, Point};
use crate::field::{fadd, fmul, lemma_reduced, Scalar};
use crate::matrix::{vadd, vscale};
use crate::matrix::{
    dot_product, lemma_row_dot_reduced, row_dot, row_in_range, DenseVectors, Element,
};
use crate::r1cs::{
    check_shape, Instance as R1csPublic, Witness as R1csWitness, lemma_same_structure_sat, r1cs_sat, relaxed_row_holds, relaxed_sat, relaxes, row_holds, shape_ok, zeros,
    R1csInstance, R1csStructure,
};

verus! {

/// With `E = 0^m` and `u = 1` the relaxed relation is the base relation: a
/// satisfying base assignment satisfies it.
pub proof fn lemma_relax_preserves_sat(s: R1csStructure, x: Seq<int>, w: Seq<int>)
    requires
        r1cs_sat(s, 1, x, w),
    ensures
        relaxed_sat(s, 1, x, w, Seq::new(s.m as nat, |i: int| 0int)),
{
    let e = Seq::new(s.m as nat, |i: int| 0int);
    assert forall|i: int| 0 <= i < s.m implies relaxed_row_holds(s, i, 1, x, w, e) by {
        let c = row_dot(s.c@[i], 1, x, w);
        lemma_row_dot_reduced(s.c@[i], 1, x, w);
        lemma_reduced(c);
        assert(row_holds(s, i, 1, x, w));
        assert(fmul(c, 1) == c);
        assert(fadd(c, 0) == c);
    }
}

/// Relaxing a satisfying base instance gives a satisfying relaxed instance.
pub proof fn lemma_relaxation_is_generalization(base: R1csInstance, relaxed: RelaxedR1csInstance)
    requires
        base.wf(),
        r1cs_sat(base.r1cs, base.witness.one.val(), base.witness.x@, base.witness.w@),
        relaxes(relaxed, base),
    ensures
        relaxed_sat(
            relaxed.r1cs,
            relaxed.instance.u.val(),
            relaxed.instance.x@,
            relaxed.witness.w@,
            relaxed.witness.e@,
        ),
{
    lemma_relax_preserves_sat(base.r1cs, base.witness.x@, base.witness.w@);
    lemma_same_structure_sat(
        relaxed.r1cs,
        base.r1cs,
        1,
        base.witness.x@,
        base.witness.w@,
        relaxed.witness.e@,
    );
}

/// The public part of a relaxed assignment: commitments to `W` and `E`, the
/// scalar `u` and the public values `x`.
#[derive(Debug)]
pub struct Instance {
    /// commitment to the witness vector
    pub commit_w: Point,
    /// commitment to the error vector
    pub commit_e: Point,
    /// scalar
    pub u: Scalar,
    /// public inputs and outputs
    pub x: DenseVectors,
}

impl Instance {
    /// Both commitments neutral, `u = 1` and `x = 0^l`.
    pub fn init(r1cs: &R1csStructure) -> (r: Self)
        ensures
            is_identity(r.commit_w),
            is_identity(r.commit_e),
            r.u.val() == 1,
            r.x@ == Seq::new(r1cs.l as nat, |i: int| 0int),
    {
        let x = zeros(r1cs.l);
        proof {
            assert(x@ =~= Seq::new(r1cs.l as nat, |i: int| 0int));
        }
        Instance { commit_w: Point::identity(), commit_e: Point::identity(), u: Scalar::one(), x }
    }

    /// Folds a fresh R1CS instance (`u = 1`, neutral commitments) into this
    /// accumulator with challenge `r` and cross-term commitment `t`:
    /// `commit(E) = r·t + r²·commit(E)`, `u = 1 + r·u`, `commit(W) = r·commit(W)`,
    /// `x = x' + r·x`.
    pub fn fold(&self, instance: &R1csPublic, r: &Scalar, t: &Point) -> (res: Self)
        requires
            instance.x@.len() == self.x@.len(),
        ensures
            res.commit_e == ec_add(ec_mul(*t, r.val()), ec_mul(self.commit_e, fmul(r.val(), r.val()))),
            res.u.val() == fadd(1, fmul(r.val(), self.u.val())),
            res.commit_w == ec_mul(self.commit_w, r.val()),
            res.x@ == vadd(instance.x@, vscale(self.x@, r.val())),
    {
        let r2 = r.square();
        let u1 = Scalar::one();
        Instance {
            commit_e: t.mul(r).add(&self.commit_e.mul(&r2)),
            u: u1.add(&r.mul(&self.u)),
            commit_w: self.commit_w.mul(r),
            x: instance.x.add(&self.x.scale(r)),
        }
    }
}

/// The private part of a relaxed assignment: the witness `W` and the error `E`.
#[derive(Debug)]
pub struct Witness {
    /// witness
    pub w: DenseVectors,
    /// error vector
    pub e: DenseVectors,
}

impl Witness {
    /// The error and the witness vectors.
    pub fn get(&self) -> (r: (DenseVectors, DenseVectors))
        ensures
            r.0@ == self.e@,
            r.1@ == self.w@,
    {
        (self.e.duplicate(), self.w.duplicate())
    }

    /// `W = 0^(m-l)` and `E = 0^m`.
    pub fn init(r1cs: &R1csStructure) -> (r: Self)
        requires
            r1cs.l <= r1cs.m,
        ensures
            r.w@ == Seq::new((r1cs.m - r1cs.l) as nat, |i: int| 0int),
            r.e@ == Seq::new(r1cs.m as nat, |i: int| 0int),
    {
        let w = zeros(r1cs.m - r1cs.l);
        let e = zeros(r1cs.m);
        proof {
            assert(w@ =~= Seq::new((r1cs.m - r1cs.l) as nat, |i: int| 0int));
            assert(e@ =~= Seq::new(r1cs.m as nat, |i: int| 0int));
        }
        Witness { w, e }
    }

    /// Folds a fresh R1CS witness (`E = 0`) into this accumulator with
    /// challenge `r` and cross term `t`: `E = r·t + r²·E`, `W = W' + r·W`.
    pub fn fold(&self, witness: &R1csWitness, r: &Scalar, t: &DenseVectors) -> (res: Self)
        requires
            t@.len() == self.e@.len(),
            witness.w@.len() == self.w@.len(),
        ensures
            res.e@ == vadd(vscale(t@, r.val()), vscale(self.e@, fmul(r.val(), r.val()))),
            res.w@ == vadd(witness.w@, vscale(self.w@, r.val())),
    {
        let r2 = r.square();
        Witness { e: t.scale(r).add(&self.e.scale(&r2)), w: witness.w.add(&self.w.scale(r)) }
    }
}

/// A structure together with one relaxed assignment to it.
#[derive(Debug)]
pub struct RelaxedR1csInstance {
    pub r1cs: R1csStructure,
    pub instance: Instance,
    pub witness: Witness,
}

impl RelaxedR1csInstance {
    /// `(A·Z) ∘ (B·Z) = u·(C·Z) + E` for `Z = (u, x, W)`, checked row by row.
    pub fn is_sat(&self) -> (r: bool)
        ensures
            r == relaxed_sat(
                self.r1cs,
                self.instance.u.val(),
                self.instance.x@,
                self.witness.w@,
                self.witness.e@,
            ),
    {
        if self.instance.x.len() != self.r1cs.l || self.witness.e.len() != self.r1cs.m
            || !check_shape(&self.r1cs, self.witness.w.len()) {
            return false;
        }
        let u = self.instance.u;
        let mut i: usize = 0;
        while i < self.r1cs.m
            invariant
                self.instance.x@.len() == self.r1cs.l,
                self.witness.e@.len() == self.r1cs.m,
                shape_ok(self.r1cs, self.witness.w@.len() as int),
                u == self.instance.u,
                i <= self.r1cs.m,
                forall|j: int|
                    0 <= j < i ==> relaxed_row_holds(
                        self.r1cs,
                        j,
                        self.instance.u.val(),
                        self.instance.x@,
                        self.witness.w@,
                        self.witness.e@,
                    ),
            decreases self.r1cs.m - i,
        {
            proof {
                assert(self.r1cs.a@[i as int] == self.r1cs.a.0@[i as int]@);
                assert(self.r1cs.b@[i as int] == self.r1cs.b.0@[i as int]@);
                assert(self.r1cs.c@[i as int] == self.r1cs.c.0@[i as int]@);
            }
            let a_prod = self.dot_product(&self.r1cs.a.0[i]);
            let b_prod = self.dot_product(&self.r1cs.b.0[i]);
            let c_prod = self.dot_product(&self.r1cs.c.0[i]).mul(&u);
            if !a_prod.mul(&b_prod).equals(&c_prod.add(&self.witness.e.0[i])) {
                proof {
                    assert(!relaxed_row_holds(
                        self.r1cs,
                        i as int,
                        self.instance.u.val(),
                        self.instance.x@,
                        self.witness.w@,
                        self.witness.e@,
                    ));
                }
                return false;
            }
            i += 1;
        }
        true
    }

    /// The dot product of one row with `Z = (u, x, W)`.
    fn dot_product(&self, row: &Vec<Element>) -> (r: Scalar)
        requires
            row_in_range(row@, self.instance.x@.len() as int, self.witness.w@.len() as int),
        ensures
            r.val() == row_dot(row@, self.instance.u.val(), self.instance.x@, self.witness.w@),
    {
        dot_product(row, &self.instance.u, &self.instance.x.0, &self.witness.w.0)
    }
}

} // verus!
