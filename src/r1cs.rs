//! The R1CS structure `(A, B, C)`, its instance/witness split and the base
//! satisfiability relation `(A·Z) ∘ (B·Z) = C·Z`.
use vstd::prelude::*;

use crate::commitment::{is_identity, Point};
use crate::field::{fadd, fmul, Scalar};
use crate::matrix::{dot_product, row_dot, rows_in_range, DenseVectors, Element, SparseMatrix};
use crate::relaxed_r1cs::{
    Instance as RelaxedInstance, RelaxedR1csInstance, Witness as RelaxedWitness,
};

verus! {

/// The constraint matrices, their row count `m`, and the public-input count `l`.
#[derive(Clone, Debug)]
pub struct R1csStructure {
    /// number of constraints
    pub m: usize,
    /// number of public values
    pub l: usize,
    pub a: SparseMatrix,
    pub b: SparseMatrix,
    pub c: SparseMatrix,
}

/// Every row of the three matrices exists and names only slots of an
/// assignment with `l` public and `wl` private values.
pub open spec fn shape_ok(s: R1csStructure, wl: int) -> bool {
    &&& rows_in_range(s.a@, s.m as int, s.l as int, wl)
    &&& rows_in_range(s.b@, s.m as int, s.l as int, wl)
    &&& rows_in_range(s.c@, s.m as int, s.l as int, wl)
}

/// Row `i` of `(A·Z) ∘ (B·Z) = C·Z` for `Z = (one, x, w)`.
pub open spec fn row_holds(s: R1csStructure, i: int, one: int, x: Seq<int>, w: Seq<int>) -> bool {
    fmul(row_dot(s.a@[i], one, x, w), row_dot(s.b@[i], one, x, w)) == row_dot(
        s.c@[i],
        one,
        x,
        w,
    )
}

/// The base relation, shape included.
pub open spec fn r1cs_sat(s: R1csStructure, one: int, x: Seq<int>, w: Seq<int>) -> bool {
    &&& x.len() == s.l
    &&& shape_ok(s, w.len() as int)
    &&& forall|i: int| 0 <= i < s.m ==> row_holds(s, i, one, x, w)
}

/// Row `i` of `(A·Z) ∘ (B·Z) = u·(C·Z) + E` for `Z = (u, x, w)`.
pub open spec fn relaxed_row_holds(
    s: R1csStructure,
    i: int,
    u: int,
    x: Seq<int>,
    w: Seq<int>,
    e: Seq<int>,
) -> bool {
    fmul(row_dot(s.a@[i], u, x, w), row_dot(s.b@[i], u, x, w)) == fadd(
        fmul(row_dot(s.c@[i], u, x, w), u),
        e[i],
    )
}

/// The relaxed relation, shape included.
pub open spec fn relaxed_sat(s: R1csStructure, u: int, x: Seq<int>, w: Seq<int>, e: Seq<int>) -> bool {
    &&& x.len() == s.l
    &&& e.len() == s.m
    &&& shape_ok(s, w.len() as int)
    &&& forall|i: int| 0 <= i < s.m ==> relaxed_row_holds(s, i, u, x, w, e)
}

/// Whether the structure fits an assignment with `wl` private values.
pub fn check_shape(s: &R1csStructure, wl: usize) -> (r: bool)
    ensures
        r == shape_ok(*s, wl as int),
{
    s.a.fits(s.m, s.l, wl) && s.b.fits(s.m, s.l, wl) && s.c.fits(s.m, s.l, wl)
}

/// The `m` zeros of a fresh error vector.
pub fn zeros(m: usize) -> (r: DenseVectors)
    ensures
        r.0@.len() == m,
        forall|i: int| 0 <= i < m ==> (#[trigger] r.0@[i]).val() == 0,
{
    let mut v: Vec<Scalar> = Vec::new();
    let mut i: usize = 0;
    while i < m
        invariant
            i <= m,
            v@.len() == i,
            forall|j: int| 0 <= j < i ==> (#[trigger] v@[j]).val() == 0,
        decreases m - i,
    {
        v.push(Scalar::zero());
        i += 1;
    }
    DenseVectors(v)
}

impl Default for R1csStructure {
    /// No constraints and no public values, with one open row.
    fn default() -> (r: Self)
        ensures
            r.m == 0,
            r.l == 0,
            r.a@ == seq![Seq::<Element>::empty()],
            r.b@ == seq![Seq::<Element>::empty()],
            r.c@ == seq![Seq::<Element>::empty()],
    {
        let r = R1csStructure {
            m: 0,
            l: 0,
            a: SparseMatrix(vec![Vec::new()]),
            b: SparseMatrix(vec![Vec::new()]),
            c: SparseMatrix(vec![Vec::new()]),
        };
        proof {
            assert(r.a@ =~= seq![Seq::<Element>::empty()]);
            assert(r.b@ =~= seq![Seq::<Element>::empty()]);
            assert(r.c@ =~= seq![Seq::<Element>::empty()]);
        }
        r
    }
}

/// The public part `x` of an R1CS assignment.
#[derive(Clone, Debug)]
pub struct Instance {
    /// public inputs and outputs
    pub x: DenseVectors,
}

/// The private part of an R1CS assignment, with a copy of `x` and of the constant.
#[derive(Clone, Debug)]
pub struct Witness {
    /// intermediate values and private inputs
    pub w: DenseVectors,
    /// public inputs and outputs
    pub x: DenseVectors,
    /// the constant one
    pub one: Scalar,
}

impl R1csStructure {
    pub fn new(m: usize, l: usize, a: SparseMatrix, b: SparseMatrix, c: SparseMatrix) -> (r: Self)
        ensures
            r == (R1csStructure { m, l, a, b, c }),
    {
        R1csStructure { m, l, a, b, c }
    }

    /// Adds one entry to row `m` of each of `A`, `B` and `C`.
    pub fn append(&mut self, a: Element, b: Element, c: Element)
        requires
            old(self).m < old(self).a@.len(),
            old(self).m < old(self).b@.len(),
            old(self).m < old(self).c@.len(),
        ensures
            final(self).m == old(self).m,
            final(self).l == old(self).l,
            final(self).a@ == old(self).a@.update(
                old(self).m as int,
                old(self).a@[old(self).m as int].push(a),
            ),
            final(self).b@ == old(self).b@.update(
                old(self).m as int,
                old(self).b@[old(self).m as int].push(b),
            ),
            final(self).c@ == old(self).c@.update(
                old(self).m as int,
                old(self).c@[old(self).m as int].push(c),
            ),
    {
        let m = self.m;
        let mut row = self.a.0[m].clone();
        row.push(a);
        self.a.0.set(m, row);
        proof {
            assert(self.a@ =~= old(self).a@.update(m as int, old(self).a@[m as int].push(a)));
        }
        let mut row = self.b.0[m].clone();
        row.push(b);
        self.b.0.set(m, row);
        proof {
            assert(self.b@ =~= old(self).b@.update(m as int, old(self).b@[m as int].push(b)));
        }
        let mut row = self.c.0[m].clone();
        row.push(c);
        self.c.0.set(m, row);
        proof {
            assert(self.c@ =~= old(self).c@.update(m as int, old(self).c@[m as int].push(c)));
        }
    }

    /// Adds one entry to row `m` of `A` alone.
    pub fn append_a(&mut self, a: Element)
        requires
            old(self).m < old(self).a@.len(),
        ensures
            final(self).m == old(self).m,
            final(self).l == old(self).l,
            final(self).a@ == old(self).a@.update(
                old(self).m as int,
                old(self).a@[old(self).m as int].push(a),
            ),
            final(self).b@ == old(self).b@,
            final(self).c@ == old(self).c@,
    {
        let m = self.m;
        let mut row = self.a.0[m].clone();
        row.push(a);
        self.a.0.set(m, row);
        proof {
            assert(self.a@ =~= old(self).a@.update(m as int, old(self).a@[m as int].push(a)));
        }
    }

    /// Closes row `m` and opens an empty one after it.
    pub fn increment(&mut self)
        requires
            old(self).m < usize::MAX,
        ensures
            final(self).m == old(self).m + 1,
            final(self).l == old(self).l,
            final(self).a@ == old(self).a@.push(Seq::empty()),
            final(self).b@ == old(self).b@.push(Seq::empty()),
            final(self).c@ == old(self).c@.push(Seq::empty()),
    {
        self.a.0.push(Vec::new());
        self.b.0.push(Vec::new());
        self.c.0.push(Vec::new());
        self.m = self.m + 1;
        proof {
            assert(self.a@ =~= old(self).a@.push(Seq::empty()));
            assert(self.b@ =~= old(self).b@.push(Seq::empty()));
            assert(self.c@ =~= old(self).c@.push(Seq::empty()));
        }
    }

    /// Splits a full assignment into `x = z[..l]` and `w = z[l..]`.
    pub fn instance_and_witness(&self, z: &Vec<Scalar>) -> (r: (Instance, Witness))
        requires
            self.l <= z@.len(),
        ensures
            r.0.x.0@ == z@.subrange(0, self.l as int),
            r.1.x.0@ == z@.subrange(0, self.l as int),
            r.1.w.0@ == z@.subrange(self.l as int, z@.len() as int),
            r.1.one.val() == 1,
    {
        let mut x: Vec<Scalar> = Vec::new();
        let mut w: Vec<Scalar> = Vec::new();
        let mut i: usize = 0;
        while i < z.len()
            invariant
                self.l <= z@.len(),
                i <= z@.len(),
                x@ == z@.subrange(0, if i < self.l { i as int } else { self.l as int }),
                w@ == z@.subrange(self.l as int, if i < self.l { self.l as int } else { i as int }),
            decreases z@.len() - i,
        {
            if i < self.l {
                x.push(z[i]);
            } else {
                w.push(z[i]);
            }
            proof {
                assert(x@ =~= z@.subrange(0, if i + 1 < self.l { i + 1 } else { self.l as int }));
                assert(w@ =~= z@.subrange(self.l as int, if i + 1 < self.l { self.l as int } else { i + 1 }));
            }
            i += 1;
        }
        let one = Scalar::one();
        (Instance { x: DenseVectors(x.clone()) }, Witness { w: DenseVectors(w), x: DenseVectors(x), one })
    }

    /// The R1CS instance of a full assignment under this structure.
    pub fn instantiate(&self, z: &Vec<Scalar>) -> (r: R1csInstance)
        requires
            self.l <= z@.len(),
        ensures
            r.wf(),
            same_structure(r.r1cs, *self),
            r.witness.x.0@ == z@.subrange(0, self.l as int),
            r.witness.w.0@ == z@.subrange(self.l as int, z@.len() as int),
    {
        let (instance, witness) = self.instance_and_witness(z);
        R1csInstance { r1cs: self.duplicate(), instance, witness }
    }

    /// A copy with the same matrices.
    pub fn duplicate(&self) -> (r: R1csStructure)
        ensures
            same_structure(r, *self),
    {
        R1csStructure {
            m: self.m,
            l: self.l,
            a: self.a.duplicate(),
            b: self.b.duplicate(),
            c: self.c.duplicate(),
        }
    }
}

/// `r` is `b` relaxed: the same structure, assignment and witness, with
/// `E = 0^m`, `u = 1` and both commitments at the neutral point.
pub open spec fn relaxes(r: RelaxedR1csInstance, b: R1csInstance) -> bool {
    &&& same_structure(r.r1cs, b.r1cs)
    &&& r.witness.w.0@ == b.witness.w.0@
    &&& r.witness.e@ == Seq::new(b.r1cs.m as nat, |i: int| 0int)
    &&& is_identity(r.instance.commit_w)
    &&& is_identity(r.instance.commit_e)
    &&& r.instance.u.val() == 1
    &&& r.instance.x.0@ == b.witness.x.0@
}

/// Both relations read a structure only through its sizes and rows.
pub proof fn lemma_same_structure_sat(
    s: R1csStructure,
    t: R1csStructure,
    u: int,
    x: Seq<int>,
    w: Seq<int>,
    e: Seq<int>,
)
    requires
        same_structure(s, t),
    ensures
        relaxed_sat(s, u, x, w, e) == relaxed_sat(t, u, x, w, e),
        r1cs_sat(s, u, x, w) == r1cs_sat(t, u, x, w),
{
    assert(shape_ok(s, w.len() as int) == shape_ok(t, w.len() as int));
    assert forall|i: int| 0 <= i < s.m implies relaxed_row_holds(s, i, u, x, w, e)
        == relaxed_row_holds(t, i, u, x, w, e) && row_holds(s, i, u, x, w) == row_holds(
        t,
        i,
        u,
        x,
        w,
    ) by {
        assert(s.a@[i] == t.a@[i]);
        assert(s.b@[i] == t.b@[i]);
        assert(s.c@[i] == t.c@[i]);
    }
    if relaxed_sat(s, u, x, w, e) {
        assert forall|i: int| 0 <= i < t.m implies relaxed_row_holds(t, i, u, x, w, e) by {
            assert(relaxed_row_holds(s, i, u, x, w, e));
        }
    }
    if relaxed_sat(t, u, x, w, e) {
        assert forall|i: int| 0 <= i < s.m implies relaxed_row_holds(s, i, u, x, w, e) by {
            assert(relaxed_row_holds(t, i, u, x, w, e));
        }
    }
}

/// Two structures with the same sizes and the same rows.
pub open spec fn same_structure(s: R1csStructure, t: R1csStructure) -> bool {
    &&& s.m == t.m
    &&& s.l == t.l
    &&& s.a@ == t.a@
    &&& s.b@ == t.b@
    &&& s.c@ == t.c@
}

impl Witness {
    /// The public and the private values.
    pub fn get(&self) -> (r: (DenseVectors, DenseVectors))
        ensures
            r.0@ == self.x@,
            r.1@ == self.w@,
    {
        (self.x.duplicate(), self.w.duplicate())
    }

    pub fn public_len(&self) -> (r: usize)
        ensures
            r == self.x@.len(),
    {
        self.x.len()
    }

    pub fn private_len(&self) -> (r: usize)
        ensures
            r == self.w@.len(),
    {
        self.w.len()
    }

    pub fn append_instance(&mut self, instance: Scalar)
        ensures
            final(self).x.0@ == old(self).x.0@.push(instance),
            final(self).w == old(self).w,
            final(self).one == old(self).one,
    {
        self.x.0.push(instance);
    }

    pub fn append_witness(&mut self, witness: Scalar)
        ensures
            final(self).w.0@ == old(self).w.0@.push(witness),
            final(self).x == old(self).x,
            final(self).one == old(self).one,
    {
        self.w.0.push(witness);
    }

    /// The relaxed witness and instance with `E = 0^m`, `u = 1` and both
    /// commitments at the neutral point.
    pub fn relax(&self, m: usize) -> (r: (RelaxedWitness, RelaxedInstance))
        ensures
            r.0.w.0@ == self.w.0@,
            r.0.e@ == Seq::new(m as nat, |i: int| 0int),
            is_identity(r.1.commit_w),
            is_identity(r.1.commit_e),
            r.1.u.val() == 1,
            r.1.x.0@ == self.x.0@,
    {
        let e = zeros(m);
        proof {
            assert(e@ =~= Seq::new(m as nat, |i: int| 0int));
        }
        (
            RelaxedWitness { w: self.w.duplicate(), e },
            RelaxedInstance {
                commit_w: Point::identity(),
                commit_e: Point::identity(),
                u: Scalar::one(),
                x: self.x.duplicate(),
            },
        )
    }
}

impl Default for Witness {
    /// No values, and the constant one.
    fn default() -> (r: Self)
        ensures
            r.w.0@.len() == 0,
            r.x.0@.len() == 0,
            r.one.val() == 1,
    {
        Witness { w: DenseVectors(Vec::new()), x: DenseVectors(Vec::new()), one: Scalar::one() }
    }
}

/// A structure together with one assignment to it.
#[derive(Debug)]
pub struct R1csInstance {
    pub r1cs: R1csStructure,
    pub instance: Instance,
    pub witness: Witness,
}

impl R1csInstance {
    /// The constant is one and the instance repeats the witness's public values.
    pub open spec fn wf(self) -> bool {
        &&& self.witness.one.val() == 1
        &&& self.instance.x@ == self.witness.x@
    }

    pub fn new(r1cs: &R1csStructure, z: &Vec<Scalar>) -> (r: Self)
        requires
            r1cs.l <= z@.len(),
        ensures
            r.wf(),
            same_structure(r.r1cs, *r1cs),
            r.witness.x.0@ == z@.subrange(0, r1cs.l as int),
            r.witness.w.0@ == z@.subrange(r1cs.l as int, z@.len() as int),
    {
        r1cs.instantiate(z)
    }

    /// The relaxed instance with `E = 0^m` and `u = 1`.
    pub fn relax(&self) -> (r: RelaxedR1csInstance)
        ensures
            relaxes(r, *self),
    {
        let r1cs = self.r1cs.duplicate();
        let (witness, instance) = self.witness.relax(self.r1cs.m);
        RelaxedR1csInstance { r1cs, instance, witness }
    }

    /// `(A·Z) ∘ (B·Z) = C·Z` for `Z = (1, x, w)`, checked row by row.
    pub fn is_sat(&self) -> (r: bool)
        ensures
            r == r1cs_sat(self.r1cs, self.witness.one.val(), self.witness.x@, self.witness.w@),
    {
        if self.witness.x.len() != self.r1cs.l || !check_shape(&self.r1cs, self.witness.w.len()) {
            return false;
        }
        let mut i: usize = 0;
        while i < self.r1cs.m
            invariant
                self.witness.x@.len() == self.r1cs.l,
                shape_ok(self.r1cs, self.witness.w@.len() as int),
                i <= self.r1cs.m,
                forall|j: int|
                    0 <= j < i ==> row_holds(
                        self.r1cs,
                        j,
                        self.witness.one.val(),
                        self.witness.x@,
                        self.witness.w@,
                    ),
            decreases self.r1cs.m - i,
        {
            proof {
                assert(self.r1cs.a@[i as int] == self.r1cs.a.0@[i as int]@);
                assert(self.r1cs.b@[i as int] == self.r1cs.b.0@[i as int]@);
                assert(self.r1cs.c@[i as int] == self.r1cs.c.0@[i as int]@);
            }
            let a_prod = self.dot_product(&self.r1cs.a.0[i]);
            let b_prod = self.dot_product(&self.r1cs.b.0[i]);
            let c_prod = self.dot_product(&self.r1cs.c.0[i]);
            if !a_prod.mul(&b_prod).equals(&c_prod) {
                proof {
                    assert(!row_holds(
                        self.r1cs,
                        i as int,
                        self.witness.one.val(),
                        self.witness.x@,
                        self.witness.w@,
                    ));
                }
                return false;
            }
            i += 1;
        }
        true
    }

    /// The dot product of one row with `Z = (1, x, w)`.
    fn dot_product(&self, row: &Vec<Element>) -> (r: Scalar)
        requires
            crate::matrix::row_in_range(row@, self.witness.x@.len() as int, self.witness.w@.len() as int),
        ensures
            r.val() == row_dot(row@, self.witness.one.val(), self.witness.x@, self.witness.w@),
    {
        dot_product(row, &self.witness.one, &self.witness.x.0, &self.witness.w.0)
    }
}

} // verus!
