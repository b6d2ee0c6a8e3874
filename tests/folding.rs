use nova::commitment::{CommitmentScheme, Point};
use nova::committed_relaxed_r1cs::CommittedRelaxedR1csInstance;
use nova::field::Scalar;
use nova::folding::FoldingScheme;
use nova::matrix::{DenseVectors, Element, SparseMatrix};
use nova::r1cs::{R1csInstance, R1csStructure};
use nova::relaxed_r1cs::RelaxedR1csInstance;
use nova::transcript::{new_transcript, ChallengeTranscript};
use nova::wire::Wire;

use jub_jub::Fp;
use rand_core::OsRng;
use zkstd::common::{Group, SigUtils};

fn random_scalar() -> Scalar {
    Scalar::from_bytes(Fp::random(OsRng).to_bytes()).unwrap()
}

fn random_vector(n: usize) -> DenseVectors {
    DenseVectors((0..n).map(|_| random_scalar()).collect())
}

fn array_to_witnesses(witnesses: Vec<u64>) -> Vec<Scalar> {
    witnesses
        .iter()
        .skip(1)
        .map(|witness| Scalar::from_u64(*witness))
        .collect::<Vec<_>>()
}

fn dense_to_sparse(value: Vec<Vec<u64>>, l: usize) -> SparseMatrix {
    let rows = value
        .iter()
        .map(|elements| {
            elements
                .iter()
                .enumerate()
                .filter(|(_, element)| **element != 0)
                .map(|(index, element)| {
                    let wire = if index == 0 {
                        Wire::One
                    } else if index <= l {
                        Wire::instance(index - 1)
                    } else {
                        Wire::witness(index - 1 - l)
                    };
                    Element(wire, Scalar::from_u64(*element))
                })
                .collect::<Vec<_>>()
        })
        .collect::<Vec<_>>();
    SparseMatrix(rows)
}

/// R1CS for: x^3 + x + 5 = y
fn example_r1cs() -> R1csStructure {
    let m = 4;
    let l = 1;
    let a = dense_to_sparse(
        vec![
            vec![0, 1, 0, 0, 0, 0],
            vec![0, 0, 0, 1, 0, 0],
            vec![0, 1, 0, 0, 1, 0],
            vec![5, 0, 0, 0, 0, 1],
        ],
        l,
    );
    let b = dense_to_sparse(
        vec![
            vec![0, 1, 0, 0, 0, 0],
            vec![0, 1, 0, 0, 0, 0],
            vec![1, 0, 0, 0, 0, 0],
            vec![1, 0, 0, 0, 0, 0],
        ],
        l,
    );
    let c = dense_to_sparse(
        vec![
            vec![0, 0, 0, 1, 0, 0],
            vec![0, 0, 0, 0, 1, 0],
            vec![0, 0, 0, 0, 0, 1],
            vec![0, 0, 1, 0, 0, 0],
        ],
        l,
    );
    R1csStructure::new(m, l, a, b, c)
}

fn example_r1cs_witness(input: u64) -> Vec<Scalar> {
    array_to_witnesses(vec![
        1,
        input,
        input * input * input + input + 5,
        input * input,
        input * input * input,
        input * input * input + input,
    ])
}

fn example_relaxed_r1cs_instance(input: u64) -> RelaxedR1csInstance {
    let r1cs = example_r1cs();
    let z = example_r1cs_witness(input);
    R1csInstance::new(&r1cs, &z).relax()
}


fn scheme(r1cs: &R1csStructure) -> CommitmentScheme {
    let n = r1cs.m.next_power_of_two() as u64;
    CommitmentScheme::new(n, &mut OsRng)
}

fn committed(
    cs: &CommitmentScheme,
    relaxed: &RelaxedR1csInstance,
    r_e: Scalar,
    r_w: Scalar,
) -> CommittedRelaxedR1csInstance {
    cs.commit_relaxed_r1cs_instance(relaxed, &r_e, &r_w)
}

fn fresh(cs: &CommitmentScheme, input: u64) -> CommittedRelaxedR1csInstance {
    let r1cs = example_r1cs();
    let relaxed = R1csInstance::new(&r1cs, &example_r1cs_witness(input)).relax();
    committed(cs, &relaxed, random_scalar(), random_scalar())
}

fn folder(cs: CommitmentScheme, z1: u64, z2: u64, r: Scalar) -> FoldingScheme {
    FoldingScheme::new(example_r1cs(), example_r1cs_witness(z1), example_r1cs_witness(z2), cs, r)
}

fn same(a: &CommittedRelaxedR1csInstance, b: &CommittedRelaxedR1csInstance) -> bool {
    a.instance.overline_e == b.instance.overline_e
        && a.instance.u == b.instance.u
        && a.instance.overline_w == b.instance.overline_w
        && a.instance.x.0 == b.instance.x.0
        && a.witness.e.0 == b.witness.e.0
        && a.witness.r_e == b.witness.r_e
        && a.witness.w.0 == b.witness.w.0
        && a.witness.r_w == b.witness.r_w
}

#[test]
fn r1cs_folding_test() {
    let r1cs = example_r1cs();
    let z1 = example_r1cs_witness(3);
    let z2 = example_r1cs_witness(4);

    let r = random_scalar();
    let cs = scheme(&r1cs);

    let folding_scheme = FoldingScheme::new(r1cs, z1, z2, cs, r);
    let folded_instance = folding_scheme.folding().unwrap();
    assert!(folded_instance.is_sat())
}

#[test]
fn fold_preserves_satisfiability_over_many_trials() {
    let r1cs = example_r1cs();
    for i in 0..100u64 {
        let cs = scheme(&r1cs);
        let fs = folder(cs, i, i + 1000, random_scalar());
        let folded = fs.folding().unwrap();
        assert!(folded.is_sat());
    }
}

#[test]
fn folded_accumulator_folds_again() {
    let r1cs = example_r1cs();
    let cs = scheme(&r1cs);
    let fs = FoldingScheme::new(example_r1cs(), vec![], vec![], cs, random_scalar());
    let mut acc = fresh(&fs.cs, 1);
    for i in 2..12u64 {
        let next = fresh(&fs.cs, i);
        acc = fs.prove(&acc, &next).unwrap();
        assert!(acc.is_sat());
    }
}

#[test]
fn folded_commitments_open_to_folded_witness() {
    let r1cs = example_r1cs();
    let cs = scheme(&r1cs);
    let fs = FoldingScheme::new(example_r1cs(), vec![], vec![], cs, random_scalar());
    let c1 = fresh(&fs.cs, 5);
    let c2 = fresh(&fs.cs, 6);
    let folded = fs.prove(&c1, &c2).unwrap();
    assert_eq!(fs.cs.commit(&folded.witness.w, &folded.witness.r_w), folded.instance.overline_w);
    assert_eq!(fs.cs.commit(&folded.witness.e, &folded.witness.r_e), folded.instance.overline_e);
}

#[test]
fn unsatisfying_side_breaks_the_fold() {
    let r1cs = example_r1cs();
    let cs = scheme(&r1cs);
    let fs = FoldingScheme::new(example_r1cs(), vec![], vec![], cs, random_scalar());
    let c1 = fresh(&fs.cs, 5);
    let mut bad = example_r1cs_witness(6);
    bad[1] = Scalar::from_u64(1);
    let relaxed = R1csInstance::new(&example_r1cs(), &bad).relax();
    let c2 = committed(&fs.cs, &relaxed, Scalar::one(), Scalar::one());
    assert!(!c2.is_sat());
    assert!(!fs.prove(&c1, &c2).unwrap().is_sat());
}

#[test]
fn folding_is_deterministic() {
    let r1cs = example_r1cs();
    let cs = scheme(&r1cs);
    let fs = folder(cs, 3, 4, random_scalar());
    let first = fs.folding().unwrap();
    let second = fs.folding().unwrap();
    assert!(same(&first, &second));
}

#[test]
fn challenge_depends_on_public_data() {
    let r1cs = example_r1cs();
    let cs = scheme(&r1cs);
    let fs = FoldingScheme::new(example_r1cs(), vec![], vec![], cs, random_scalar());
    let c1 = fresh(&fs.cs, 3);
    let c2 = fresh(&fs.cs, 4);
    let c3 = fresh(&fs.cs, 5);
    // both sides start with u = 1, so the folded u is 1 + r
    let r_a = fs.prove(&c1, &c2).unwrap().instance.u.sub(&Scalar::one());
    let r_b = fs.prove(&c1, &c3).unwrap().instance.u.sub(&Scalar::one());
    let r_c = fs.prove(&c2, &c1).unwrap().instance.u.sub(&Scalar::one());
    assert_ne!(r_a, r_b);
    assert_ne!(r_a, r_c);
}

#[test]
fn self_fold_is_accepted() {
    let r1cs = example_r1cs();
    let cs = scheme(&r1cs);
    let fs = FoldingScheme::new(example_r1cs(), vec![], vec![], cs, random_scalar());
    let c = fresh(&fs.cs, 9);
    let folded = fs.prove(&c, &c).unwrap();
    assert!(folded.is_sat());
}

#[test]
fn mismatched_shapes_are_rejected() {
    let r1cs = example_r1cs();
    let cs = scheme(&r1cs);
    let fs = FoldingScheme::new(example_r1cs(), vec![], vec![], cs, random_scalar());
    let c1 = fresh(&fs.cs, 3);

    let mut short_e = fresh(&fs.cs, 4);
    short_e.witness.e.0.pop();
    assert!(fs.prove(&c1, &short_e).is_none());

    let mut long_x = fresh(&fs.cs, 4);
    long_x.instance.x.0.push(Scalar::one());
    assert!(fs.prove(&c1, &long_x).is_none());

    let mut long_w = fresh(&fs.cs, 4);
    long_w.witness.w.0.push(Scalar::one());
    assert!(fs.prove(&c1, &long_w).is_none());

    let fs_bad = FoldingScheme::new(example_r1cs(), example_r1cs_witness(1), vec![Scalar::one(); 3], scheme(&r1cs), random_scalar());
    assert!(fs_bad.folding().is_none());
}

#[test]
fn out_of_range_wire_is_rejected() {
    let r1cs = example_r1cs();
    let cs = scheme(&r1cs);
    let mut bad = example_r1cs();
    bad.c.0[2].push(Element(Wire::witness(7), Scalar::one()));
    let fs = FoldingScheme::new(bad, example_r1cs_witness(1), example_r1cs_witness(2), cs, random_scalar());
    assert!(fs.folding().is_none());
}

#[test]
fn commitment_is_additively_homomorphic() {
    let cs = CommitmentScheme::new(3, &mut OsRng);
    for _ in 0..10 {
        let (v1, v2) = (random_vector(9), random_vector(9));
        let (r1, r2) = (random_scalar(), random_scalar());
        let lhs = cs.commit(&v1, &r1).add(&cs.commit(&v2, &r2));
        let rhs = cs.commit(&v1.add(&v2), &r1.add(&r2));
        assert_eq!(lhs, rhs);
    }
}

#[test]
fn commitment_scales_with_its_scalar() {
    let cs = CommitmentScheme::new(2, &mut OsRng);
    let v = random_vector(5);
    let (r, s) = (random_scalar(), random_scalar());
    assert_eq!(cs.commit(&v, &r).mul(&s), cs.commit(&v.scale(&s), &r.mul(&s)));
}

#[test]
fn empty_commitment_is_blinding_term() {
    let cs = CommitmentScheme::new(1, &mut OsRng);
    let r = random_scalar();
    assert_eq!(cs.commit(&DenseVectors(vec![]), &r), cs.h.mul(&r));
}

#[test]
fn commitment_depends_on_vector() {
    let cs = CommitmentScheme::new(1, &mut OsRng);
    let r = random_scalar();
    let v = DenseVectors(vec![Scalar::from_u64(1), Scalar::from_u64(2)]);
    let u = DenseVectors(vec![Scalar::from_u64(2), Scalar::from_u64(1)]);
    assert_ne!(cs.commit(&v, &r), cs.commit(&u, &r));
    assert_ne!(cs.commit(&v, &r), cs.h.mul(&r));
}

#[test]
fn scheme_has_two_to_the_n_plus_one_generators() {
    assert_eq!(CommitmentScheme::new(0, &mut OsRng).domain.len(), 2);
    assert_eq!(CommitmentScheme::new(3, &mut OsRng).domain.len(), 9);
}

#[test]
fn point_identity_is_neutral() {
    let p = Point::random(&mut OsRng);
    assert_eq!(p.add(&Point::identity()), p);
    assert_eq!(p.mul(&Scalar::one()), p);
    assert_eq!(p.mul(&Scalar::zero()), Point::identity());
    assert_ne!(p.add(&p), p);
    assert_eq!(p.add(&p), p.mul(&Scalar::from_u64(2)));
}

#[test]
fn transcript_challenge_is_reproducible() {
    let p = Point::random(&mut OsRng);
    let s = random_scalar();
    let draw = |q: &Point, t: &Scalar| {
        let mut tr = new_transcript(&nova::folding::FOLD_RELAXED_R1CS);
        tr.append_point(&nova::folding::COMMIT_T, q);
        tr.append_scalar(&nova::committed_relaxed_r1cs::X_VECTOR, t);
        tr.challenge_scalar(&nova::folding::RANDOM_SCALAR)
    };
    assert_eq!(draw(&p, &s), draw(&p, &s));
    assert_ne!(draw(&p, &s), draw(&p, &s.add(&Scalar::one())));
}

#[test]
fn sparse_matrix_from_rows() {
    let m = SparseMatrix(vec![vec![Element::from_wire(Wire::one())], vec![]]);
    let r = m.prod(2, &Scalar::from_u64(5), &vec![], &vec![]);
    assert_eq!(r.0, vec![Scalar::from_u64(5), Scalar::zero()]);
}

#[test]
fn generators_lie_in_the_prime_order_subgroup() {
    let cs = CommitmentScheme::new(1, &mut OsRng);
    let minus_one = Scalar::zero().sub(&Scalar::one());
    for g in cs.domain.iter().chain(std::iter::once(&cs.h)) {
        assert_eq!(g.mul(&minus_one).add(g), Point::identity());
    }
}
