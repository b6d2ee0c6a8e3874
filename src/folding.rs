//! The non-interactive folding scheme: two committed relaxed instances of one
//! structure become one, through the cross term `T`, its commitment, and a
//! challenge drawn from a transcript of both instances' public data.
use vstd::prelude::*;

use crate::commitment::{commit_spec, ec_add, ec_mul, CommitmentScheme, Point};
use crate::committed_relaxed_r1cs::{
    instance_messages, CommittedRelaxedR1csInstance, Instance, Witness,
};
use crate::field::{
    eqv, fadd, fmul, fsub, le_value, lemma_eqv_add, lemma_eqv_mul, lemma_eqv_ops, lemma_eqv_sub,
    modulus, Scalar,
};
use crate::matrix::{
    lemma_row_dot_linear, mat_vec, row_dot, vadd, vals, vmul, vscale, vsub,
    DenseVectors,
};
use crate::r1cs::{
    check_shape, lemma_same_structure_sat, r1cs_sat, relaxed_row_holds, relaxed_sat,
    same_structure, shape_ok, R1csStructure,
};
use crate::relaxed_r1cs::lemma_relax_preserves_sat;
use crate::transcript::{challenge_of, new_transcript, ChallengeTranscript, DOM_SEP};

verus! {

/// The name of the folding transcript.
pub const FOLD_RELAXED_R1CS: [u8; 17] = [
    102, 111, 108, 100, 45, 114, 101, 108, 97, 120, 101, 100, 45, 114, 49, 99, 115,
];

/// Label of the cross-term commitment's coordinates.
pub const COMMIT_T: [u8; 8] = [99, 111, 109, 109, 105, 116, 45, 116];

/// Label of the folding challenge.
pub const RANDOM_SCALAR: [u8; 13] = [114, 97, 110, 100, 111, 109, 45, 115, 99, 97, 108, 97, 114];

/// `T = (A·Z2) ∘ (B·Z1) + (A·Z1) ∘ (B·Z2) − u1·(C·Z2) − u2·(C·Z1)` for
/// `Z1 = (u1, x1, w1)` and `Z2 = (u2, x2, w2)`.
pub open spec fn cross_term(
    s: R1csStructure,
    u1: int,
    x1: Seq<int>,
    w1: Seq<int>,
    u2: int,
    x2: Seq<int>,
    w2: Seq<int>,
) -> Seq<int> {
    let az1 = mat_vec(s.a@, s.m as int, u1, x1, w1);
    let bz1 = mat_vec(s.b@, s.m as int, u1, x1, w1);
    let cz1 = mat_vec(s.c@, s.m as int, u1, x1, w1);
    let az2 = mat_vec(s.a@, s.m as int, u2, x2, w2);
    let bz2 = mat_vec(s.b@, s.m as int, u2, x2, w2);
    let cz2 = mat_vec(s.c@, s.m as int, u2, x2, w2);
    vsub(vsub(vadd(vmul(az2, bz1), vmul(az1, bz2)), vscale(cz2, u1)), vscale(cz1, u2))
}

/// Everything the folding transcript has absorbed when the challenge is drawn.
pub open spec fn fold_log(
    w1: Point,
    x1: Seq<Scalar>,
    w2: Point,
    x2: Seq<Scalar>,
    t: Point,
) -> Seq<(Seq<u8>, Seq<u8>)> {
    seq![(DOM_SEP@, FOLD_RELAXED_R1CS@)] + instance_messages(w1, x1) + instance_messages(w2, x2)
        + seq![(COMMIT_T@, t.x_view()), (COMMIT_T@, t.y_view())]
}

/// The folding challenge: the transcript's 64 bytes reduced into the field.
pub open spec fn fold_challenge(w1: Point, x1: Seq<Scalar>, w2: Point, x2: Seq<Scalar>, t: Point) -> int {
    le_value(challenge_of(fold_log(w1, x1, w2, x2, t), RANDOM_SCALAR@)) as int % modulus()
}

/// The two sides have the shapes that folding needs: `x` of length `l`, `E`
/// of length `m`, witnesses of one length that the structure fits.
pub open spec fn fold_shape_ok(
    s: R1csStructure,
    c1: CommittedRelaxedR1csInstance,
    c2: CommittedRelaxedR1csInstance,
) -> bool {
    &&& c1.instance.x@.len() == s.l
    &&& c2.instance.x@.len() == s.l
    &&& c1.witness.e@.len() == s.m
    &&& c2.witness.e@.len() == s.m
    &&& c1.witness.w@.len() == c2.witness.w@.len()
    &&& shape_ok(s, c1.witness.w@.len() as int)
}

/// `res` is the fold of `c1` and `c2` under `s`, the generators of `cs` and
/// the cross-term blinding `rt`.
pub open spec fn folds(
    res: CommittedRelaxedR1csInstance,
    s: R1csStructure,
    cs: CommitmentScheme,
    rt: int,
    c1: CommittedRelaxedR1csInstance,
    c2: CommittedRelaxedR1csInstance,
) -> bool {
    let (i1, i2, o1, o2) = (c1.instance, c2.instance, c1.witness, c2.witness);
    let t = cross_term(s, i1.u.val(), i1.x@, o1.w@, i2.u.val(), i2.x@, o2.w@);
    let overline_t = commit_spec(cs.h, cs.domain@, t, rt);
    let r = fold_challenge(i1.overline_w, i1.x.0@, i2.overline_w, i2.x.0@, overline_t);
    let r2 = fmul(r, r);
    &&& same_structure(res.committed_relaxed_r1cs, s)
    &&& res.instance.overline_e == ec_add(
        ec_add(i1.overline_e, ec_mul(overline_t, r)),
        ec_mul(i2.overline_e, r2),
    )
    &&& res.instance.u.val() == fadd(i1.u.val(), fmul(r, i2.u.val()))
    &&& res.instance.overline_w == ec_add(i1.overline_w, ec_mul(i2.overline_w, r))
    &&& res.instance.x@ == vadd(i1.x@, vscale(i2.x@, r))
    &&& res.witness.e@ == vadd(vadd(o1.e@, vscale(t, r)), vscale(o2.e@, r2))
    &&& res.witness.r_e.val() == fadd(fadd(o1.r_e.val(), fmul(r, rt)), fmul(r2, o2.r_e.val()))
    &&& res.witness.w@ == vadd(o1.w@, vscale(o2.w@, r))
    &&& res.witness.r_w.val() == fadd(o1.r_w.val(), fmul(r, o2.r_w.val()))
}

/// One row of the folded relation, on representatives: if both sides satisfy
/// `a·b = c·u + e`, so do the folded values.
proof fn lemma_fold_row(
    a1: int,
    b1: int,
    c1: int,
    u1: int,
    e1: int,
    a2: int,
    b2: int,
    c2: int,
    u2: int,
    e2: int,
    r: int,
    af: int,
    bf: int,
    cf: int,
    uf: int,
    t: int,
    ef: int,
)
    requires
        fmul(a1, b1) == fadd(fmul(c1, u1), e1),
        fmul(a2, b2) == fadd(fmul(c2, u2), e2),
        eqv(af, a1 + r * a2),
        eqv(bf, b1 + r * b2),
        eqv(cf, c1 + r * c2),
        eqv(uf, u1 + r * u2),
        eqv(t, a2 * b1 + a1 * b2 - c2 * u1 - c1 * u2),
        eqv(ef, e1 + t * r + e2 * (r * r)),
    ensures
        fmul(af, bf) == fadd(fmul(cf, uf), ef),
{
    // each side's own relation, on integers
    lemma_eqv_ops(a1, b1);
    lemma_eqv_ops(c1, u1);
    lemma_eqv_ops(fmul(c1, u1), e1);
    lemma_eqv_add(fmul(c1, u1), c1 * u1, e1, e1);
    lemma_eqv_ops(a2, b2);
    lemma_eqv_ops(c2, u2);
    lemma_eqv_ops(fmul(c2, u2), e2);
    lemma_eqv_add(fmul(c2, u2), c2 * u2, e2, e2);
    let cross = a2 * b1 + a1 * b2;
    // left-hand side
    lemma_eqv_mul(af, a1 + r * a2, bf, b1 + r * b2);
    lemma_expand(a1, a2, b1, b2, r);
    lemma_eqv_add(a1 * b1, c1 * u1 + e1, r * cross, r * cross);
    lemma_eqv_mul(r * r, r * r, a2 * b2, c2 * u2 + e2);
    lemma_eqv_add(
        a1 * b1 + r * cross,
        c1 * u1 + e1 + r * cross,
        (r * r) * (a2 * b2),
        (r * r) * (c2 * u2 + e2),
    );
    let target = c1 * u1 + e1 + r * cross + (r * r) * (c2 * u2 + e2);
    assert(eqv(af * bf, target));
    // right-hand side
    lemma_eqv_mul(cf, c1 + r * c2, uf, u1 + r * u2);
    lemma_eqv_mul(t, a2 * b1 + a1 * b2 - c2 * u1 - c1 * u2, r, r);
    lemma_eqv_add(e1, e1, t * r, (a2 * b1 + a1 * b2 - c2 * u1 - c1 * u2) * r);
    lemma_eqv_add(
        e1 + t * r,
        e1 + (a2 * b1 + a1 * b2 - c2 * u1 - c1 * u2) * r,
        e2 * (r * r),
        e2 * (r * r),
    );
    let ef_int = e1 + (a2 * b1 + a1 * b2 - c2 * u1 - c1 * u2) * r + e2 * (r * r);
    assert(eqv(ef, ef_int));
    lemma_eqv_ops(cf, uf);
    lemma_eqv_ops(fmul(cf, uf), ef);
    lemma_eqv_add(fmul(cf, uf), (c1 + r * c2) * (u1 + r * u2), ef, ef_int);
    lemma_expand(c1, c2, u1, u2, r);
    lemma_regroup(c1 * u1, c2 * u1 + c1 * u2, c2 * u2, e1, e2, cross, r, r * r);
    assert(cross - c2 * u1 - c1 * u2 == cross - (c2 * u1 + c1 * u2));
}

/// `(a1 + r·a2)(b1 + r·b2) = a1·b1 + r·(a2·b1 + a1·b2) + r²·a2·b2`.
proof fn lemma_expand(a1: int, a2: int, b1: int, b2: int, r: int)
    ensures
        (a1 + r * a2) * (b1 + r * b2) == a1 * b1 + r * (a2 * b1 + a1 * b2) + (r * r) * (a2 * b2),
{
    let (ra, rb) = (r * a2, r * b2);
    assert((a1 + ra) * (b1 + rb) == a1 * b1 + a1 * rb + ra * b1 + ra * rb) by (nonlinear_arith);
    assert(a1 * rb == r * (a1 * b2)) by (nonlinear_arith)
        requires
            rb == r * b2,
    ;
    assert(ra * b1 == r * (a2 * b1)) by (nonlinear_arith)
        requires
            ra == r * a2,
    ;
    assert(ra * rb == (r * r) * (a2 * b2)) by (nonlinear_arith)
        requires
            ra == r * a2,
            rb == r * b2,
    ;
    assert(r * (a1 * b2) + r * (a2 * b1) == r * (a2 * b1 + a1 * b2)) by (nonlinear_arith);
}

/// The right-hand side of a folded row, regrouped by powers of `r`.
proof fn lemma_regroup(p: int, q: int, s2: int, e1: int, e2: int, x: int, r: int, rr: int)
    ensures
        (p + r * q + rr * s2) + (e1 + (x - q) * r + e2 * rr) == p + e1 + r * x + rr * (s2 + e2),
{
    assert((p + r * q + rr * s2) + (e1 + (x - q) * r + e2 * rr) == p + e1 + r * x + rr * (s2 + e2))
        by (nonlinear_arith);
}

/// Folding preserves the relaxed relation: if `(u1, x1, w1, e1)` and
/// `(u2, x2, w2, e2)` satisfy it, then for every challenge `r` so does
/// `(u1 + r·u2, x1 + r·x2, w1 + r·w2, e1 + r·T + r²·e2)` with `T` their cross
/// term.
pub proof fn lemma_fold_preserves_sat(
    s: R1csStructure,
    u1: int,
    x1: Seq<int>,
    w1: Seq<int>,
    e1: Seq<int>,
    u2: int,
    x2: Seq<int>,
    w2: Seq<int>,
    e2: Seq<int>,
    r: int,
)
    requires
        relaxed_sat(s, u1, x1, w1, e1),
        relaxed_sat(s, u2, x2, w2, e2),
        w1.len() == w2.len(),
    ensures
        relaxed_sat(
            s,
            fadd(u1, fmul(r, u2)),
            vadd(x1, vscale(x2, r)),
            vadd(w1, vscale(w2, r)),
            vadd(vadd(e1, vscale(cross_term(s, u1, x1, w1, u2, x2, w2), r)), vscale(e2, fmul(r, r))),
        ),
{
    let uf = fadd(u1, fmul(r, u2));
    let xf = vadd(x1, vscale(x2, r));
    let wf = vadd(w1, vscale(w2, r));
    let t = cross_term(s, u1, x1, w1, u2, x2, w2);
    let ef = vadd(vadd(e1, vscale(t, r)), vscale(e2, fmul(r, r)));
    assert forall|i: int| 0 <= i < s.m implies relaxed_row_holds(s, i, uf, xf, wf, ef) by {
        let (ra, rb, rc) = (s.a@[i], s.b@[i], s.c@[i]);
        let (a1, b1, c1) = (row_dot(ra, u1, x1, w1), row_dot(rb, u1, x1, w1), row_dot(rc, u1, x1, w1));
        let (a2, b2, c2) = (row_dot(ra, u2, x2, w2), row_dot(rb, u2, x2, w2), row_dot(rc, u2, x2, w2));
        lemma_row_dot_linear(ra, u1, x1, w1, u2, x2, w2, r);
        lemma_row_dot_linear(rb, u1, x1, w1, u2, x2, w2, r);
        lemma_row_dot_linear(rc, u1, x1, w1, u2, x2, w2, r);
        assert(relaxed_row_holds(s, i, u1, x1, w1, e1));
        assert(relaxed_row_holds(s, i, u2, x2, w2, e2));
        // the folded scalar
        lemma_eqv_ops(u1, fmul(r, u2));
        lemma_eqv_ops(r, u2);
        lemma_eqv_add(u1, u1, fmul(r, u2), r * u2);
        // the cross term's entry
        let ti = t[i];
        assert(ti == fsub(fsub(fadd(fmul(a2, b1), fmul(a1, b2)), fmul(c2, u1)), fmul(c1, u2)));
        lemma_eqv_ops(a2, b1);
        lemma_eqv_ops(a1, b2);
        lemma_eqv_ops(fmul(a2, b1), fmul(a1, b2));
        lemma_eqv_add(fmul(a2, b1), a2 * b1, fmul(a1, b2), a1 * b2);
        lemma_eqv_ops(c2, u1);
        lemma_eqv_ops(fadd(fmul(a2, b1), fmul(a1, b2)), fmul(c2, u1));
        lemma_eqv_sub(fadd(fmul(a2, b1), fmul(a1, b2)), a2 * b1 + a1 * b2, fmul(c2, u1), c2 * u1);
        lemma_eqv_ops(c1, u2);
        let tp = fsub(fadd(fmul(a2, b1), fmul(a1, b2)), fmul(c2, u1));
        lemma_eqv_ops(tp, fmul(c1, u2));
        lemma_eqv_sub(tp, a2 * b1 + a1 * b2 - c2 * u1, fmul(c1, u2), c1 * u2);
        // the folded error entry
        let efi = ef[i];
        assert(efi == fadd(fadd(e1[i], fmul(ti, r)), fmul(e2[i], fmul(r, r))));
        lemma_eqv_ops(ti, r);
        lemma_eqv_ops(e1[i], fmul(ti, r));
        lemma_eqv_add(e1[i], e1[i], fmul(ti, r), ti * r);
        lemma_eqv_ops(r, r);
        lemma_eqv_ops(e2[i], fmul(r, r));
        lemma_eqv_mul(e2[i], e2[i], fmul(r, r), r * r);
        lemma_eqv_ops(fadd(e1[i], fmul(ti, r)), fmul(e2[i], fmul(r, r)));
        lemma_eqv_add(fadd(e1[i], fmul(ti, r)), e1[i] + ti * r, fmul(e2[i], fmul(r, r)), e2[i] * (r * r));
        lemma_fold_row(
            a1,
            b1,
            c1,
            u1,
            e1[i],
            a2,
            b2,
            c2,
            u2,
            e2[i],
            r,
            row_dot(ra, uf, xf, wf),
            row_dot(rb, uf, xf, wf),
            row_dot(rc, uf, xf, wf),
            uf,
            ti,
            efi,
        );
    }
}

/// The relaxed relation on a committed instance's opening.
pub open spec fn committed_sat(s: R1csStructure, c: CommittedRelaxedR1csInstance) -> bool {
    relaxed_sat(s, c.instance.u.val(), c.instance.x@, c.witness.w@, c.witness.e@)
}

/// Folding preserves satisfiability: the fold of two committed relaxed
/// instances whose openings satisfy the relaxed relation has an opening that
/// satisfies it, whatever challenge the transcript gave.
pub proof fn lemma_folding_preserves_sat(
    s: R1csStructure,
    cs: CommitmentScheme,
    rt: int,
    c1: CommittedRelaxedR1csInstance,
    c2: CommittedRelaxedR1csInstance,
    res: CommittedRelaxedR1csInstance,
)
    requires
        committed_sat(s, c1),
        committed_sat(s, c2),
        c1.witness.w@.len() == c2.witness.w@.len(),
        folds(res, s, cs, rt, c1, c2),
    ensures
        committed_sat(res.committed_relaxed_r1cs, res),
{
    let (i1, i2, o1, o2) = (c1.instance, c2.instance, c1.witness, c2.witness);
    let t = cross_term(s, i1.u.val(), i1.x@, o1.w@, i2.u.val(), i2.x@, o2.w@);
    let overline_t = commit_spec(cs.h, cs.domain@, t, rt);
    let r = fold_challenge(i1.overline_w, i1.x.0@, i2.overline_w, i2.x.0@, overline_t);
    lemma_fold_preserves_sat(
        s,
        i1.u.val(),
        i1.x@,
        o1.w@,
        o1.e@,
        i2.u.val(),
        i2.x@,
        o2.w@,
        o2.e@,
        r,
    );
    lemma_same_structure_sat(
        res.committed_relaxed_r1cs,
        s,
        res.instance.u.val(),
        res.instance.x@,
        res.witness.w@,
        res.witness.e@,
    );
}

/// Folding is deterministic: two folds of the same instances under the same
/// structure, generators and cross-term blinding agree in every field.
pub proof fn lemma_folding_deterministic(
    s: R1csStructure,
    cs: CommitmentScheme,
    rt: int,
    c1: CommittedRelaxedR1csInstance,
    c2: CommittedRelaxedR1csInstance,
    res1: CommittedRelaxedR1csInstance,
    res2: CommittedRelaxedR1csInstance,
)
    requires
        folds(res1, s, cs, rt, c1, c2),
        folds(res2, s, cs, rt, c1, c2),
    ensures
        same_structure(res1.committed_relaxed_r1cs, res2.committed_relaxed_r1cs),
        res1.instance.overline_e == res2.instance.overline_e,
        res1.instance.u.val() == res2.instance.u.val(),
        res1.instance.overline_w == res2.instance.overline_w,
        res1.instance.x@ == res2.instance.x@,
        res1.witness.e@ == res2.witness.e@,
        res1.witness.r_e.val() == res2.witness.r_e.val(),
        res1.witness.w@ == res2.witness.w@,
        res1.witness.r_w.val() == res2.witness.r_w.val(),
{
}

/// One committed instance has the shape that folding needs on its own.
pub open spec fn single_shape_ok(s: R1csStructure, c: CommittedRelaxedR1csInstance) -> bool {
    &&& c.instance.x@.len() == s.l
    &&& c.witness.e@.len() == s.m
    &&& shape_ok(s, c.witness.w@.len() as int)
}

/// An instance can always be folded with itself: nothing in the shape check
/// tells the two sides apart.
pub proof fn lemma_self_fold_accepted(s: R1csStructure, c: CommittedRelaxedR1csInstance)
    requires
        single_shape_ok(s, c),
    ensures
        fold_shape_ok(s, c, c),
{
}

/// `c` is the commitment, with blinding scalars one, of the relaxed form
/// (`E = 0^m`, `u = 1`) of the assignment `z` under `s`.
pub open spec fn commits_assignment(
    c: CommittedRelaxedR1csInstance,
    s: R1csStructure,
    cs: CommitmentScheme,
    z: Seq<Scalar>,
) -> bool {
    &&& same_structure(c.committed_relaxed_r1cs, s)
    &&& c.instance.x.0@ == z.subrange(0, s.l as int)
    &&& c.witness.w.0@ == z.subrange(s.l as int, z.len() as int)
    &&& c.witness.e@ == Seq::new(s.m as nat, |i: int| 0int)
    &&& c.instance.u.val() == 1
    &&& c.witness.r_e.val() == 1
    &&& c.witness.r_w.val() == 1
    &&& c.instance.overline_e == commit_spec(cs.h, cs.domain@, c.witness.e@, 1)
    &&& c.instance.overline_w == commit_spec(cs.h, cs.domain@, c.witness.w@, 1)
}

/// A structure, two full assignments to it, the commitment parameters and the
/// blinding scalar of the cross-term commitment.
pub struct FoldingScheme {
    /// matrices A, B and C
    pub r1cs: R1csStructure,
    /// assignment of one instance
    pub z1: Vec<Scalar>,
    /// assignment of the other instance
    pub z2: Vec<Scalar>,
    /// commitment parameters
    pub cs: CommitmentScheme,
    /// blinding scalar of the cross-term commitment
    pub r: Scalar,
}

impl FoldingScheme {
    pub fn new(
        r1cs: R1csStructure,
        z1: Vec<Scalar>,
        z2: Vec<Scalar>,
        cs: CommitmentScheme,
        r: Scalar,
    ) -> (res: Self)
        ensures
            res == (FoldingScheme { r1cs, z1, z2, cs, r }),
    {
        FoldingScheme { r1cs, z1, z2, cs, r }
    }

    /// The cross term of `Z1 = (u1, x1, w1)` and `Z2 = (u2, x2, w2)`.
    fn compute_cross_term(
        &self,
        u1: &Scalar,
        x1: &DenseVectors,
        w1: &DenseVectors,
        u2: &Scalar,
        x2: &DenseVectors,
        w2: &DenseVectors,
    ) -> (t: DenseVectors)
        requires
            x1@.len() == self.r1cs.l,
            x2@.len() == self.r1cs.l,
            w1@.len() == w2@.len(),
            shape_ok(self.r1cs, w1@.len() as int),
        ensures
            t@ == cross_term(self.r1cs, u1.val(), x1@, w1@, u2.val(), x2@, w2@),
    {
        let m = self.r1cs.m;
        let az2 = self.r1cs.a.prod(m, u2, &x2.0, &w2.0);
        let bz1 = self.r1cs.b.prod(m, u1, &x1.0, &w1.0);
        let az1 = self.r1cs.a.prod(m, u1, &x1.0, &w1.0);
        let bz2 = self.r1cs.b.prod(m, u2, &x2.0, &w2.0);
        let cz2 = self.r1cs.c.prod(m, u2, &x2.0, &w2.0);
        let cz1 = self.r1cs.c.prod(m, u1, &x1.0, &w1.0);

        // Hadamard products
        let az2bz1 = az2.mul(&bz1);
        let az1bz2 = az1.mul(&bz2);

        // scalings by the other side's u
        let c1cz2 = cz2.scale(u1);
        let c2cz1 = cz1.scale(u2);

        az2bz1.add(&az1bz2).sub(&c1cz2).sub(&c2cz1)
    }

    /// `commit(E) = E1 + r·T + r²·E2`, `u = u1 + r·u2`, `commit(W) = W1 + r·W2`,
    /// `x = x1 + r·x2`.
    fn fold_committed_r1cs_instance(
        instance1: &Instance,
        instance2: &Instance,
        r: &Scalar,
        overline_t: &Point,
    ) -> (res: Instance)
        requires
            instance1.x@.len() == instance2.x@.len(),
        ensures
            res.overline_e == ec_add(
                ec_add(instance1.overline_e, ec_mul(*overline_t, r.val())),
                ec_mul(instance2.overline_e, fmul(r.val(), r.val())),
            ),
            res.u.val() == fadd(instance1.u.val(), fmul(r.val(), instance2.u.val())),
            res.overline_w == ec_add(instance1.overline_w, ec_mul(instance2.overline_w, r.val())),
            res.x@ == vadd(instance1.x@, vscale(instance2.x@, r.val())),
    {
        let r2 = r.square();
        let (overline_e1, u1, overline_w1, x1) = instance1.get();
        let (overline_e2, u2, overline_w2, x2) = instance2.get();
        let overline_e = overline_e1.add(&overline_t.mul(r)).add(&overline_e2.mul(&r2));
        let overline_w = overline_w1.add(&overline_w2.mul(r));
        Instance { overline_e, u: u1.add(&r.mul(&u2)), overline_w, x: x1.add(&x2.scale(r)) }
    }

    /// `E = E1 + r·T + r²·E2`, `r_E = r_E1 + r·r_T + r²·r_E2`, `W = W1 + r·W2`,
    /// `r_W = r_W1 + r·r_W2`.
    fn fold_committed_r1cs_witness(
        witness1: &Witness,
        witness2: &Witness,
        r: &Scalar,
        t: &DenseVectors,
        rt: &Scalar,
    ) -> (res: Witness)
        requires
            witness1.e@.len() == t@.len(),
            witness2.e@.len() == t@.len(),
            witness1.w@.len() == witness2.w@.len(),
        ensures
            res.e@ == vadd(
                vadd(witness1.e@, vscale(t@, r.val())),
                vscale(witness2.e@, fmul(r.val(), r.val())),
            ),
            res.r_e.val() == fadd(
                fadd(witness1.r_e.val(), fmul(r.val(), rt.val())),
                fmul(fmul(r.val(), r.val()), witness2.r_e.val()),
            ),
            res.w@ == vadd(witness1.w@, vscale(witness2.w@, r.val())),
            res.r_w.val() == fadd(witness1.r_w.val(), fmul(r.val(), witness2.r_w.val())),
    {
        let r2 = r.square();
        let (e1, r_e1, w1, r_w1) = witness1.get();
        let (e2, r_e2, w2, r_w2) = witness2.get();
        let e = e1.add(&t.scale(r)).add(&e2.scale(&r2));
        let r_e = r_e1.add(&r.mul(rt)).add(&r2.mul(&r_e2));
        let w = w1.add(&w2.scale(r));
        let r_w = r_w1.add(&r.mul(&r_w2));
        Witness { e, r_e, w, r_w }
    }

    /// Folds two committed relaxed instances of `self.r1cs` into one, with
    /// the challenge drawn from a fresh transcript of both instances' public
    /// data and the commitment to their cross term. `None` when the shapes do
    /// not fit the structure or each other.
    pub fn prove(
        &self,
        committed1: &CommittedRelaxedR1csInstance,
        committed2: &CommittedRelaxedR1csInstance,
    ) -> (res: Option<CommittedRelaxedR1csInstance>)
        requires
            self.r1cs.m <= self.cs.domain@.len(),
        ensures
            res.is_some() <==> fold_shape_ok(self.r1cs, *committed1, *committed2),
            res.is_some() ==> folds(
                res.unwrap(),
                self.r1cs,
                self.cs,
                self.r.val(),
                *committed1,
                *committed2,
            ),
            res.is_some() && committed_sat(self.r1cs, *committed1) && committed_sat(
                self.r1cs,
                *committed2,
            ) ==> committed_sat(res.unwrap().committed_relaxed_r1cs, res.unwrap()),
    {
        let (i1, i2) = (&committed1.instance, &committed2.instance);
        let (o1, o2) = (&committed1.witness, &committed2.witness);
        if i1.x.len() != self.r1cs.l || i2.x.len() != self.r1cs.l || o1.e.len() != self.r1cs.m
            || o2.e.len() != self.r1cs.m || o1.w.len() != o2.w.len() || !check_shape(
            &self.r1cs,
            o1.w.len(),
        ) {
            return None;
        }
        let rt = self.r;
        let u1 = i1.u;
        let u2 = i2.u;
        let mut tr = new_transcript(&FOLD_RELAXED_R1CS);
        i1.append_to_transcript(&mut tr);
        i2.append_to_transcript(&mut tr);

        // cross term and its commitment
        let t = self.compute_cross_term(&u1, &i1.x, &o1.w, &u2, &i2.x, &o2.w);
        let overline_t = self.cs.commit(&t, &rt);
        tr.append_point(&COMMIT_T, &overline_t);

        // challenge
        proof {
            assert(tr.log() =~= fold_log(i1.overline_w, i1.x.0@, i2.overline_w, i2.x.0@, overline_t));
        }
        let r = tr.challenge_scalar(&RANDOM_SCALAR);

        let instance = Self::fold_committed_r1cs_instance(i1, i2, &r, &overline_t);
        let witness = Self::fold_committed_r1cs_witness(o1, o2, &r, &t, &rt);
        let res = CommittedRelaxedR1csInstance {
            committed_relaxed_r1cs: self.r1cs.duplicate(),
            instance,
            witness,
        };
        proof {
            if committed_sat(self.r1cs, *committed1) && committed_sat(self.r1cs, *committed2) {
                lemma_folding_preserves_sat(self.r1cs, self.cs, rt.val(), *committed1, *committed2, res);
            }
        }
        Some(res)
    }

    /// Builds both instances from `z1` and `z2`, relaxes them, commits them
    /// with blinding scalars one, and folds them.
    pub fn folding(&self) -> (res: Option<CommittedRelaxedR1csInstance>)
        requires
            self.r1cs.l <= self.z1@.len(),
            self.r1cs.l <= self.z2@.len(),
            self.r1cs.m <= self.cs.domain@.len(),
            self.z1@.len() - self.r1cs.l <= self.cs.domain@.len(),
            self.z2@.len() - self.r1cs.l <= self.cs.domain@.len(),
        ensures
            res.is_some() <==> (self.z1@.len() == self.z2@.len() && shape_ok(
                self.r1cs,
                self.z1@.len() - self.r1cs.l,
            )),
            res.is_some() ==> exists|c1: CommittedRelaxedR1csInstance, c2: CommittedRelaxedR1csInstance|
                {
                    &&& commits_assignment(c1, self.r1cs, self.cs, self.z1@)
                    &&& commits_assignment(c2, self.r1cs, self.cs, self.z2@)
                    &&& folds(res.unwrap(), self.r1cs, self.cs, self.r.val(), c1, c2)
                },
            res.is_some() && r1cs_sat(
                self.r1cs,
                1,
                vals(self.z1@.subrange(0, self.r1cs.l as int)),
                vals(self.z1@.subrange(self.r1cs.l as int, self.z1@.len() as int)),
            ) && r1cs_sat(
                self.r1cs,
                1,
                vals(self.z2@.subrange(0, self.r1cs.l as int)),
                vals(self.z2@.subrange(self.r1cs.l as int, self.z2@.len() as int)),
            ) ==> committed_sat(res.unwrap().committed_relaxed_r1cs, res.unwrap()),
    {
        // r1cs instances
        let r1cs_instance1 = self.r1cs.instantiate(&self.z1);
        let r1cs_instance2 = self.r1cs.instantiate(&self.z2);

        // relaxed r1cs instances
        let relaxed_r1cs_instance1 = r1cs_instance1.relax();
        let relaxed_r1cs_instance2 = r1cs_instance2.relax();

        // committed relaxed r1cs instances
        let one = Scalar::one();
        let committed1 = self.cs.commit_relaxed_r1cs_instance(&relaxed_r1cs_instance1, &one, &one);
        let committed2 = self.cs.commit_relaxed_r1cs_instance(&relaxed_r1cs_instance2, &one, &one);
        proof {
            assert(commits_assignment(committed1, self.r1cs, self.cs, self.z1@));
            assert(commits_assignment(committed2, self.r1cs, self.cs, self.z2@));
            let (x1, w1) = (committed1.instance.x@, committed1.witness.w@);
            let (x2, w2) = (committed2.instance.x@, committed2.witness.w@);
            assert(x1 =~= vals(self.z1@.subrange(0, self.r1cs.l as int)));
            assert(w1 =~= vals(self.z1@.subrange(self.r1cs.l as int, self.z1@.len() as int)));
            assert(x2 =~= vals(self.z2@.subrange(0, self.r1cs.l as int)));
            assert(w2 =~= vals(self.z2@.subrange(self.r1cs.l as int, self.z2@.len() as int)));
            if r1cs_sat(self.r1cs, 1, x1, w1) {
                lemma_relax_preserves_sat(self.r1cs, x1, w1);
            }
            if r1cs_sat(self.r1cs, 1, x2, w2) {
                lemma_relax_preserves_sat(self.r1cs, x2, w2);
            }
        }
        self.prove(&committed1, &committed2)
    }
}

} // verus!
