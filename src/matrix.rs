//! Sparse matrices of (wire, coefficient) entries and dense vectors of
//! field elements.
use vstd::prelude::*;

use crate::field::{
    eqv, fadd, fmul, fsub, lemma_eqv_add, lemma_eqv_mul, lemma_eqv_ops, lemma_modulus_pos, modulus,
    Scalar,
};
use crate::wire::Wire;

verus! {

/// The values of a vector of field elements.
pub open spec fn vals(v: Seq<Scalar>) -> Seq<int> {
    v.map_values(|s: Scalar| s.val())
}

/// The value of a wire in the assignment `(one, x, w)`.
pub open spec fn wire_value(wire: Wire, one: int, x: Seq<int>, w: Seq<int>) -> int {
    match wire {
        Wire::One => one,
        Wire::Instance(i) => x[i as int],
        Wire::Witness(i) => w[i as int],
    }
}

/// The wire names a slot of an assignment with `xl` public and `wl` private values.
pub open spec fn wire_in_range(wire: Wire, xl: int, wl: int) -> bool {
    match wire {
        Wire::One => true,
        Wire::Instance(i) => i < xl,
        Wire::Witness(i) => i < wl,
    }
}

pub open spec fn row_in_range(row: Seq<Element>, xl: int, wl: int) -> bool {
    forall|k: int| 0 <= k < row.len() ==> wire_in_range(#[trigger] row[k].0, xl, wl)
}

/// The first `m` rows exist and only name slots of such an assignment.
pub open spec fn rows_in_range(rows: Seq<Seq<Element>>, m: int, xl: int, wl: int) -> bool {
    &&& m <= rows.len()
    &&& forall|i: int| 0 <= i < m ==> row_in_range(#[trigger] rows[i], xl, wl)
}

/// The sum, over the entries of a row, of coefficient times wire value.
pub open spec fn row_dot(row: Seq<Element>, one: int, x: Seq<int>, w: Seq<int>) -> int
    decreases row.len(),
{
    if row.len() == 0 {
        0
    } else {
        fadd(
            row_dot(row.drop_last(), one, x, w),
            fmul(row.last().1.val(), wire_value(row.last().0, one, x, w)),
        )
    }
}

/// The product of the first `m` rows with the assignment `(one, x, w)`.
pub open spec fn mat_vec(rows: Seq<Seq<Element>>, m: int, one: int, x: Seq<int>, w: Seq<int>) -> Seq<
    int,
> {
    Seq::new(m as nat, |i: int| row_dot(rows[i], one, x, w))
}

pub open spec fn vadd(a: Seq<int>, b: Seq<int>) -> Seq<int> {
    Seq::new(a.len(), |i: int| fadd(a[i], b[i]))
}

pub open spec fn vsub(a: Seq<int>, b: Seq<int>) -> Seq<int> {
    Seq::new(a.len(), |i: int| fsub(a[i], b[i]))
}

/// The elementwise (Hadamard) product.
pub open spec fn vmul(a: Seq<int>, b: Seq<int>) -> Seq<int> {
    Seq::new(a.len(), |i: int| fmul(a[i], b[i]))
}

pub open spec fn vscale(a: Seq<int>, s: int) -> Seq<int> {
    Seq::new(a.len(), |i: int| fmul(a[i], s))
}

/// A row's dot product is a reduced representative.
pub proof fn lemma_row_dot_reduced(row: Seq<Element>, one: int, x: Seq<int>, w: Seq<int>)
    ensures
        0 <= row_dot(row, one, x, w) < modulus(),
{
    lemma_modulus_pos();
    if row.len() > 0 {
        lemma_eqv_ops(
            row_dot(row.drop_last(), one, x, w),
            fmul(row.last().1.val(), wire_value(row.last().0, one, x, w)),
        );
    }
}

/// A wire's value in `(u1 + r·u2, x1 + r·x2, w1 + r·w2)` stands for its value
/// in the first assignment plus `r` times its value in the second.
pub proof fn lemma_wire_value_linear(
    wire: Wire,
    u1: int,
    x1: Seq<int>,
    w1: Seq<int>,
    u2: int,
    x2: Seq<int>,
    w2: Seq<int>,
    r: int,
)
    requires
        wire_in_range(wire, x1.len() as int, w1.len() as int),
        x2.len() == x1.len(),
        w2.len() == w1.len(),
    ensures
        eqv(
            wire_value(wire, fadd(u1, fmul(r, u2)), vadd(x1, vscale(x2, r)), vadd(w1, vscale(w2, r))),
            wire_value(wire, u1, x1, w1) + r * wire_value(wire, u2, x2, w2),
        ),
{
    match wire {
        Wire::One => {
            lemma_eqv_ops(u1, fmul(r, u2));
            lemma_eqv_ops(r, u2);
            lemma_eqv_add(u1, u1, fmul(r, u2), r * u2);
        },
        Wire::Instance(i) => {
            let i = i as int;
            lemma_eqv_ops(x1[i], fmul(x2[i], r));
            lemma_eqv_ops(x2[i], r);
            lemma_eqv_add(x1[i], x1[i], fmul(x2[i], r), x2[i] * r);
            assert(x2[i] * r == r * x2[i]) by (nonlinear_arith);
        },
        Wire::Witness(i) => {
            let i = i as int;
            lemma_eqv_ops(w1[i], fmul(w2[i], r));
            lemma_eqv_ops(w2[i], r);
            lemma_eqv_add(w1[i], w1[i], fmul(w2[i], r), w2[i] * r);
            assert(w2[i] * r == r * w2[i]) by (nonlinear_arith);
        },
    }
}

/// A row's dot product is linear in the assignment: on
/// `(u1 + r·u2, x1 + r·x2, w1 + r·w2)` it stands for the first product plus
/// `r` times the second.
pub proof fn lemma_row_dot_linear(
    row: Seq<Element>,
    u1: int,
    x1: Seq<int>,
    w1: Seq<int>,
    u2: int,
    x2: Seq<int>,
    w2: Seq<int>,
    r: int,
)
    requires
        row_in_range(row, x1.len() as int, w1.len() as int),
        x2.len() == x1.len(),
        w2.len() == w1.len(),
    ensures
        eqv(
            row_dot(row, fadd(u1, fmul(r, u2)), vadd(x1, vscale(x2, r)), vadd(w1, vscale(w2, r))),
            row_dot(row, u1, x1, w1) + r * row_dot(row, u2, x2, w2),
        ),
    decreases row.len(),
{
    let uf = fadd(u1, fmul(r, u2));
    let xf = vadd(x1, vscale(x2, r));
    let wf = vadd(w1, vscale(w2, r));
    if row.len() == 0 {
        assert(r * 0 == 0) by (nonlinear_arith);
    } else {
        let p = row.drop_last();
        assert(row_in_range(p, x1.len() as int, w1.len() as int)) by {
            assert forall|k: int| 0 <= k < p.len() implies wire_in_range(
                #[trigger] p[k].0,
                x1.len() as int,
                w1.len() as int,
            ) by {
                assert(p[k] == row[k]);
            }
        }
        lemma_row_dot_linear(p, u1, x1, w1, u2, x2, w2, r);
        let c = row.last().1.val();
        let wire = row.last().0;
        assert(wire_in_range(wire, x1.len() as int, w1.len() as int)) by {
            assert(row[row.len() - 1] == row.last());
        }
        lemma_wire_value_linear(wire, u1, x1, w1, u2, x2, w2, r);
        let vf = wire_value(wire, uf, xf, wf);
        let v1 = wire_value(wire, u1, x1, w1);
        let v2 = wire_value(wire, u2, x2, w2);
        let df = row_dot(p, uf, xf, wf);
        let d1 = row_dot(p, u1, x1, w1);
        let d2 = row_dot(p, u2, x2, w2);
        // the folded side
        lemma_eqv_ops(df, fmul(c, vf));
        lemma_eqv_ops(c, vf);
        lemma_eqv_add(df, df, fmul(c, vf), c * vf);
        lemma_eqv_mul(c, c, vf, v1 + r * v2);
        lemma_eqv_add(df, d1 + r * d2, c * vf, c * (v1 + r * v2));
        // the two sides taken apart
        lemma_eqv_ops(d1, fmul(c, v1));
        lemma_eqv_ops(c, v1);
        lemma_eqv_add(d1, d1, fmul(c, v1), c * v1);
        lemma_eqv_ops(d2, fmul(c, v2));
        lemma_eqv_ops(c, v2);
        lemma_eqv_add(d2, d2, fmul(c, v2), c * v2);
        lemma_eqv_mul(r, r, fadd(d2, fmul(c, v2)), d2 + c * v2);
        lemma_eqv_add(fadd(d1, fmul(c, v1)), d1 + c * v1, r * fadd(d2, fmul(c, v2)), r * (d2 + c * v2));
        assert((d1 + r * d2) + c * (v1 + r * v2) == (d1 + c * v1) + r * (d2 + c * v2))
            by (nonlinear_arith);
    }
}

/// One entry of a sparse row: a wire and its coefficient.
#[derive(Clone, Copy, Debug)]
pub struct Element(pub Wire, pub Scalar);

impl Element {
    /// The wire with coefficient one.
    pub fn from_wire(wire: Wire) -> (r: Element)
        ensures
            r.0 == wire,
            r.1.val() == 1,
    {
        Element(wire, Scalar::one())
    }

    /// A constant: the `One` wire with the given coefficient.
    pub fn from_scalar(value: Scalar) -> (r: Element)
        ensures
            r.0 == Wire::One,
            r.1 == value,
    {
        Element(Wire::one(), value)
    }

    pub fn get(&self) -> (r: (Wire, Scalar))
        ensures
            r == (self.0, self.1),
    {
        (self.0, self.1)
    }
}

/// The value of `wire` in the assignment `(one, x, w)`.
pub fn assigned(wire: Wire, one: &Scalar, x: &Vec<Scalar>, w: &Vec<Scalar>) -> (r: Scalar)
    requires
        wire_in_range(wire, x.len() as int, w.len() as int),
    ensures
        r.val() == wire_value(wire, one.val(), vals(x@), vals(w@)),
{
    match wire {
        Wire::One => *one,
        Wire::Instance(i) => x[i],
        Wire::Witness(i) => w[i],
    }
}

/// The dot product of a sparse row with the assignment `(one, x, w)`.
pub fn dot_product(row: &Vec<Element>, one: &Scalar, x: &Vec<Scalar>, w: &Vec<Scalar>) -> (r:
    Scalar)
    requires
        row_in_range(row@, x.len() as int, w.len() as int),
    ensures
        r.val() == row_dot(row@, one.val(), vals(x@), vals(w@)),
{
    let mut sum = Scalar::zero();
    let mut k: usize = 0;
    while k < row.len()
        invariant
            k <= row.len(),
            row_in_range(row@, x.len() as int, w.len() as int),
            sum.val() == row_dot(row@.take(k as int), one.val(), vals(x@), vals(w@)),
        decreases row.len() - k,
    {
        let (wire, coeff) = row[k].get();
        let value = assigned(wire, one, x, w);
        sum = sum.add(&coeff.mul(&value));
        proof {
            assert(row@.take(k + 1).drop_last() =~= row@.take(k as int));
        }
        k += 1;
    }
    proof {
        assert(row@.take(row.len() as int) =~= row@);
    }
    sum
}

/// A matrix stored row by row, each row holding only its nonzero entries.
#[derive(Clone, Debug)]
pub struct SparseMatrix(pub Vec<Vec<Element>>);

impl View for SparseMatrix {
    type V = Seq<Seq<Element>>;

    open spec fn view(&self) -> Seq<Seq<Element>> {
        self.0@.map_values(|row: Vec<Element>| row@)
    }
}

impl SparseMatrix {
    /// A copy with the same rows.
    pub fn duplicate(&self) -> (r: SparseMatrix)
        ensures
            r@ == self@,
    {
        let rows = self.0.clone();
        proof {
            assert(rows@.map_values(|row: Vec<Element>| row@) =~= self@);
        }
        SparseMatrix(rows)
    }

    /// Whether the first `m` rows exist and only name slots of an assignment
    /// with `xl` public and `wl` private values.
    pub fn fits(&self, m: usize, xl: usize, wl: usize) -> (r: bool)
        ensures
            r == rows_in_range(self@, m as int, xl as int, wl as int),
    {
        if m > self.0.len() {
            return false;
        }
        let mut i: usize = 0;
        while i < m
            invariant
                i <= m <= self.0@.len(),
                forall|j: int| 0 <= j < i ==> row_in_range(#[trigger] self@[j], xl as int, wl as int),
            decreases m - i,
        {
            let row = &self.0[i];
            let mut k: usize = 0;
            while k < row.len()
                invariant
                    k <= row@.len(),
                    i < m <= self.0@.len(),
                    row == self.0@[i as int],
                    forall|q: int| 0 <= q < k ==> wire_in_range(#[trigger] row@[q].0, xl as int, wl as int),
                decreases row@.len() - k,
            {
                let ok = match row[k].0 {
                    Wire::One => true,
                    Wire::Instance(j) => j < xl,
                    Wire::Witness(j) => j < wl,
                };
                if !ok {
                    proof {
                        assert(!wire_in_range(self@[i as int][k as int].0, xl as int, wl as int));
                    }
                    return false;
                }
                k += 1;
            }
            i += 1;
        }
        true
    }

    /// The product of the first `m` rows with the assignment `(one, x, w)`.
    pub fn prod(&self, m: usize, one: &Scalar, x: &Vec<Scalar>, w: &Vec<Scalar>) -> (r:
        DenseVectors)
        requires
            rows_in_range(self@, m as int, x.len() as int, w.len() as int),
        ensures
            r@ == mat_vec(self@, m as int, one.val(), vals(x@), vals(w@)),
    {
        let mut out: Vec<Scalar> = Vec::new();
        let mut i: usize = 0;
        while i < m
            invariant
                i <= m,
                rows_in_range(self@, m as int, x.len() as int, w.len() as int),
                out@.len() == i,
                forall|j: int|
                    0 <= j < i ==> (#[trigger] out@[j]).val() == row_dot(
                        self@[j],
                        one.val(),
                        vals(x@),
                        vals(w@),
                    ),
            decreases m - i,
        {
            proof {
                assert(self@[i as int] == self.0@[i as int]@);
            }
            out.push(dot_product(&self.0[i], one, x, w));
            i += 1;
        }
        proof {
            assert(vals(out@) =~= mat_vec(self@, m as int, one.val(), vals(x@), vals(w@)));
        }
        DenseVectors(out)
    }
}

/// A dense vector of field elements.
#[derive(Clone, Debug)]
pub struct DenseVectors(pub Vec<Scalar>);

impl View for DenseVectors {
    type V = Seq<int>;

    open spec fn view(&self) -> Seq<int> {
        vals(self.0@)
    }
}

impl DenseVectors {
    /// A copy with the same elements.
    pub fn duplicate(&self) -> (r: DenseVectors)
        ensures
            r.0@ == self.0@,
    {
        DenseVectors(self.0.clone())
    }

    pub fn len(&self) -> (r: usize)
        ensures
            r == self.0@.len(),
    {
        self.0.len()
    }

    /// Elementwise sum.
    pub fn add(&self, rhs: &DenseVectors) -> (r: DenseVectors)
        requires
            self@.len() == rhs@.len(),
        ensures
            r@ == vadd(self@, rhs@),
    {
        let mut out: Vec<Scalar> = Vec::new();
        let mut i: usize = 0;
        proof {
            assert(self@.len() == self.0@.len() && rhs@.len() == rhs.0@.len());
        }
        while i < self.0.len()
            invariant
                i <= self.0@.len(),
                self.0@.len() == rhs.0@.len(),
                out@.len() == i,
                forall|j: int|
                    0 <= j < i ==> (#[trigger] out@[j]).val() == fadd(
                        self.0@[j].val(),
                        rhs.0@[j].val(),
                    ),
            decreases self.0@.len() - i,
        {
            out.push(self.0[i].add(&rhs.0[i]));
            i += 1;
        }
        proof {
            assert(vals(out@) =~= vadd(vals(self.0@), vals(rhs.0@)));
        }
        DenseVectors(out)
    }

    /// Elementwise difference.
    pub fn sub(&self, rhs: &DenseVectors) -> (r: DenseVectors)
        requires
            self@.len() == rhs@.len(),
        ensures
            r@ == vsub(self@, rhs@),
    {
        let mut out: Vec<Scalar> = Vec::new();
        let mut i: usize = 0;
        proof {
            assert(self@.len() == self.0@.len() && rhs@.len() == rhs.0@.len());
        }
        while i < self.0.len()
            invariant
                i <= self.0@.len(),
                self.0@.len() == rhs.0@.len(),
                out@.len() == i,
                forall|j: int|
                    0 <= j < i ==> (#[trigger] out@[j]).val() == fsub(
                        self.0@[j].val(),
                        rhs.0@[j].val(),
                    ),
            decreases self.0@.len() - i,
        {
            out.push(self.0[i].sub(&rhs.0[i]));
            i += 1;
        }
        proof {
            assert(vals(out@) =~= vsub(vals(self.0@), vals(rhs.0@)));
        }
        DenseVectors(out)
    }

    /// Elementwise (Hadamard) product.
    pub fn mul(&self, rhs: &DenseVectors) -> (r: DenseVectors)
        requires
            self@.len() == rhs@.len(),
        ensures
            r@ == vmul(self@, rhs@),
    {
        let mut out: Vec<Scalar> = Vec::new();
        let mut i: usize = 0;
        proof {
            assert(self@.len() == self.0@.len() && rhs@.len() == rhs.0@.len());
        }
        while i < self.0.len()
            invariant
                i <= self.0@.len(),
                self.0@.len() == rhs.0@.len(),
                out@.len() == i,
                forall|j: int|
                    0 <= j < i ==> (#[trigger] out@[j]).val() == fmul(
                        self.0@[j].val(),
                        rhs.0@[j].val(),
                    ),
            decreases self.0@.len() - i,
        {
            out.push(self.0[i].mul(&rhs.0[i]));
            i += 1;
        }
        proof {
            assert(vals(out@) =~= vmul(vals(self.0@), vals(rhs.0@)));
        }
        DenseVectors(out)
    }

    /// Every element multiplied by `s`.
    pub fn scale(&self, s: &Scalar) -> (r: DenseVectors)
        ensures
            r@ == vscale(self@, s.val()),
    {
        let mut out: Vec<Scalar> = Vec::new();
        let mut i: usize = 0;
        while i < self.0.len()
            invariant
                i <= self.0@.len(),
                out@.len() == i,
                forall|j: int|
                    0 <= j < i ==> (#[trigger] out@[j]).val() == fmul(self.0@[j].val(), s.val()),
            decreases self.0@.len() - i,
        {
            out.push(self.0[i].mul(s));
            i += 1;
        }
        proof {
            assert(vals(out@) =~= vscale(vals(self.0@), s.val()));
        }
        DenseVectors(out)
    }
}

} // verus!
