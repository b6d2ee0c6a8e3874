//! A small builder that assigns wires and records constraints row by row.
use vstd::prelude::*;

use crate::field::Scalar;
use crate::matrix::{vals, DenseVectors, Element};
use crate::r1cs::{r1cs_sat, Instance, R1csInstance, R1csStructure, Witness};
use crate::wire::Wire;

verus! {

/// An R1CS under construction together with the values assigned so far.
#[derive(Debug)]
pub struct ConstraintSystem {
    r1cs: R1csInstance,
}

impl ConstraintSystem {
    /// Row `m` is open and empty, the public count matches the public values, and the
    /// constant is one.
    pub open spec fn wf(self) -> bool {
        &&& self.rows_open()
        &&& self.view().r1cs.a@[self.view().r1cs.m as int].len() == 0
        &&& self.view().r1cs.b@[self.view().r1cs.m as int].len() == 0
        &&& self.view().r1cs.c@[self.view().r1cs.m as int].len() == 0
        &&& self.view().r1cs.l == self.view().witness.x@.len()
    }

    /// Row `m` exists and is the last, the public count matches the public
    /// values, and the constant is one.
    pub open spec fn rows_open(self) -> bool {
        &&& self.view().wf()
        &&& self.view().r1cs.a@.len() == self.view().r1cs.m + 1
        &&& self.view().r1cs.b@.len() == self.view().r1cs.m + 1
        &&& self.view().r1cs.c@.len() == self.view().r1cs.m + 1
        &&& self.view().r1cs.l == self.view().witness.x@.len()
    }

    /// The instance built so far.
    pub closed spec fn view(self) -> R1csInstance {
        self.r1cs
    }

    /// No wires and no constraints.
    pub fn new() -> (r: Self)
        ensures
            r.wf(),
            r.view().r1cs.m == 0,
            r.view().witness.x@.len() == 0,
            r.view().witness.w@.len() == 0,
    {
        let r1cs = R1csInstance {
            r1cs: R1csStructure::default(),
            instance: Instance { x: DenseVectors(Vec::new()) },
            witness: Witness::default(),
        };
        proof {
            assert(r1cs.instance.x@ =~= r1cs.witness.x@);
        }
        ConstraintSystem { r1cs }
    }

    /// Assigns a new public value and returns its wire.
    pub fn public_wire(&mut self, instance: Scalar) -> (r: Wire)
        requires
            old(self).wf(),
            old(self).view().r1cs.l < usize::MAX,
        ensures
            final(self).wf(),
            r == Wire::Instance(old(self).view().witness.x@.len() as usize),
            final(self).view().witness.x.0@ == old(self).view().witness.x.0@.push(instance),
            final(self).view().witness.w.0@ == old(self).view().witness.w.0@,
            final(self).view().r1cs.m == old(self).view().r1cs.m,
            final(self).view().r1cs.a@ == old(self).view().r1cs.a@,
            final(self).view().r1cs.b@ == old(self).view().r1cs.b@,
            final(self).view().r1cs.c@ == old(self).view().r1cs.c@,
    {
        let index = self.r1cs.witness.public_len();
        self.r1cs.witness.append_instance(instance);
        self.r1cs.instance.x.0.push(instance);
        self.r1cs.r1cs.l = self.r1cs.r1cs.l + 1;
        proof {
            let (ox, ow) = (old(self).view().instance.x.0@, old(self).view().witness.x.0@);
            assert(self.r1cs.instance.x.0@ == ox.push(instance));
            assert forall|k: int| 0 <= k < ox.len() implies ox[k].val() == ow[k].val() by {
                assert(vals(ox)[k] == vals(ow)[k]);
            }
            assert(self.r1cs.instance.x@ =~= self.r1cs.witness.x@);
        }
        Wire::instance(index)
    }

    /// Assigns a new private value and returns its wire.
    pub fn private_wire(&mut self, witness: Scalar) -> (r: Wire)
        requires
            old(self).wf(),
        ensures
            final(self).wf(),
            r == Wire::Witness(old(self).view().witness.w@.len() as usize),
            final(self).view().witness.w.0@ == old(self).view().witness.w.0@.push(witness),
            final(self).view().witness.x.0@ == old(self).view().witness.x.0@,
            final(self).view().r1cs.m == old(self).view().r1cs.m,
            final(self).view().r1cs.a@ == old(self).view().r1cs.a@,
            final(self).view().r1cs.b@ == old(self).view().r1cs.b@,
            final(self).view().r1cs.c@ == old(self).view().r1cs.c@,
    {
        let index = self.r1cs.witness.private_len();
        self.r1cs.witness.append_witness(witness);
        Wire::witness(index)
    }

    /// Constrains `(a + b) · 1 = c`.
    pub fn add_constraint(&mut self, a: Wire, b: Wire, c: Wire)
        requires
            old(self).wf(),
            old(self).view().r1cs.m + 1 < usize::MAX,
        ensures
            final(self).wf(),
            final(self).view().witness == old(self).view().witness,
            final(self).view().r1cs.m == old(self).view().r1cs.m + 1,
            final(self).view().r1cs.a@[old(self).view().r1cs.m as int] == seq![
                Element(a, final(self).view().r1cs.a@[old(self).view().r1cs.m as int][0].1),
                Element(b, final(self).view().r1cs.a@[old(self).view().r1cs.m as int][1].1),
            ],
            final(self).view().r1cs.a@[old(self).view().r1cs.m as int][0].1.val() == 1,
            final(self).view().r1cs.a@[old(self).view().r1cs.m as int][1].1.val() == 1,
            final(self).view().r1cs.b@[old(self).view().r1cs.m as int].len() == 1,
            final(self).view().r1cs.b@[old(self).view().r1cs.m as int][0].0 == Wire::One,
            final(self).view().r1cs.b@[old(self).view().r1cs.m as int][0].1.val() == 1,
            final(self).view().r1cs.c@[old(self).view().r1cs.m as int].len() == 1,
            final(self).view().r1cs.c@[old(self).view().r1cs.m as int][0].0 == c,
            final(self).view().r1cs.c@[old(self).view().r1cs.m as int][0].1.val() == 1,
            forall|i: int|
                0 <= i < old(self).view().r1cs.m ==> final(self).view().r1cs.a@[i] == old(
                    self,
                ).view().r1cs.a@[i] && final(self).view().r1cs.b@[i] == old(self).view().r1cs.b@[i]
                    && final(self).view().r1cs.c@[i] == old(self).view().r1cs.c@[i],
    {
        self.r1cs.r1cs.append_a(Element::from_wire(a));
        self.enable_constraint(
            Element::from_wire(b),
            Element::from_scalar(Scalar::one()),
            Element::from_wire(c),
        );
    }

    /// Constrains `a · b = c`.
    pub fn mul_constraint(&mut self, a: Wire, b: Wire, c: Wire)
        requires
            old(self).wf(),
            old(self).view().r1cs.m + 1 < usize::MAX,
        ensures
            final(self).wf(),
            final(self).view().witness == old(self).view().witness,
            final(self).view().r1cs.m == old(self).view().r1cs.m + 1,
            final(self).view().r1cs.a@[old(self).view().r1cs.m as int].len() == 1,
            final(self).view().r1cs.a@[old(self).view().r1cs.m as int][0].0 == a,
            final(self).view().r1cs.a@[old(self).view().r1cs.m as int][0].1.val() == 1,
            final(self).view().r1cs.b@[old(self).view().r1cs.m as int].len() == 1,
            final(self).view().r1cs.b@[old(self).view().r1cs.m as int][0].0 == b,
            final(self).view().r1cs.b@[old(self).view().r1cs.m as int][0].1.val() == 1,
            final(self).view().r1cs.c@[old(self).view().r1cs.m as int].len() == 1,
            final(self).view().r1cs.c@[old(self).view().r1cs.m as int][0].0 == c,
            final(self).view().r1cs.c@[old(self).view().r1cs.m as int][0].1.val() == 1,
            forall|i: int|
                0 <= i < old(self).view().r1cs.m ==> final(self).view().r1cs.a@[i] == old(
                    self,
                ).view().r1cs.a@[i] && final(self).view().r1cs.b@[i] == old(self).view().r1cs.b@[i]
                    && final(self).view().r1cs.c@[i] == old(self).view().r1cs.c@[i],
    {
        self.enable_constraint(Element::from_wire(a), Element::from_wire(b), Element::from_wire(c))
    }

    /// Constrains `a · 1 = b`.
    pub fn equal_constraint(&mut self, a: Wire, b: Wire)
        requires
            old(self).wf(),
            old(self).view().r1cs.m + 1 < usize::MAX,
        ensures
            final(self).wf(),
            final(self).view().witness == old(self).view().witness,
            final(self).view().r1cs.m == old(self).view().r1cs.m + 1,
            final(self).view().r1cs.a@[old(self).view().r1cs.m as int].len() == 1,
            final(self).view().r1cs.a@[old(self).view().r1cs.m as int][0].0 == a,
            final(self).view().r1cs.a@[old(self).view().r1cs.m as int][0].1.val() == 1,
            final(self).view().r1cs.b@[old(self).view().r1cs.m as int].len() == 1,
            final(self).view().r1cs.b@[old(self).view().r1cs.m as int][0].0 == Wire::One,
            final(self).view().r1cs.b@[old(self).view().r1cs.m as int][0].1.val() == 1,
            final(self).view().r1cs.c@[old(self).view().r1cs.m as int].len() == 1,
            final(self).view().r1cs.c@[old(self).view().r1cs.m as int][0].0 == b,
            final(self).view().r1cs.c@[old(self).view().r1cs.m as int][0].1.val() == 1,
            forall|i: int|
                0 <= i < old(self).view().r1cs.m ==> final(self).view().r1cs.a@[i] == old(
                    self,
                ).view().r1cs.a@[i] && final(self).view().r1cs.b@[i] == old(self).view().r1cs.b@[i]
                    && final(self).view().r1cs.c@[i] == old(self).view().r1cs.c@[i],
    {
        self.enable_constraint(
            Element::from_wire(a),
            Element::from_scalar(Scalar::one()),
            Element::from_wire(b),
        )
    }

    /// Adds one entry to each of `A`, `B` and `C` in the open row, then closes it.
    fn enable_constraint(&mut self, a: Element, b: Element, c: Element)
        requires
            old(self).rows_open(),
            old(self).view().r1cs.m + 1 < usize::MAX,
        ensures
            final(self).wf(),
            final(self).view().witness == old(self).view().witness,
            final(self).view().r1cs.m == old(self).view().r1cs.m + 1,
            final(self).view().r1cs.a@[old(self).view().r1cs.m as int] == old(
                self,
            ).view().r1cs.a@[old(self).view().r1cs.m as int].push(a),
            final(self).view().r1cs.b@[old(self).view().r1cs.m as int] == old(
                self,
            ).view().r1cs.b@[old(self).view().r1cs.m as int].push(b),
            final(self).view().r1cs.c@[old(self).view().r1cs.m as int] == old(
                self,
            ).view().r1cs.c@[old(self).view().r1cs.m as int].push(c),
            forall|i: int|
                0 <= i < old(self).view().r1cs.m ==> final(self).view().r1cs.a@[i] == old(
                    self,
                ).view().r1cs.a@[i] && final(self).view().r1cs.b@[i] == old(self).view().r1cs.b@[i]
                    && final(self).view().r1cs.c@[i] == old(self).view().r1cs.c@[i],
    {
        self.r1cs.r1cs.append(a, b, c);
        self.r1cs.r1cs.increment();
    }

    /// Whether the assigned values satisfy every constraint.
    pub fn is_sat(&self) -> (r: bool)
        ensures
            r == r1cs_sat(
                self.view().r1cs,
                self.view().witness.one.val(),
                self.view().witness.x@,
                self.view().witness.w@,
            ),
    {
        self.r1cs.is_sat()
    }
}

} // verus!
