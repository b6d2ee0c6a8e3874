use nova::commitment::{CommitmentScheme, Point};
use nova::field::Scalar;
use nova::matrix::{DenseVectors, Element, SparseMatrix};
use nova::r1cs::{R1csInstance, R1csStructure};
use nova::relaxed_r1cs::RelaxedR1csInstance;
use nova::wire::Wire;

use rand_core::OsRng;

fn array_to_witnesses(witnesses: Vec<u64>) -> Vec<Scalar> {
    witnesses
        .iter()
        .skip(1)
        .map(|witness| Scalar::from_u64(*witness))
        .collect::<Vec<_>>()
}

fn dense_to_sparse(value: Vec<Vec<u64>>, l: usize) -> SparseMatrix {
    let rows = value
        .iter()
        .map(|elements| {
            elements
                .iter()
                .enumerate()
                .filter(|(_, element)| **element != 0)
                .map(|(index, element)| {
                    let wire = if index == 0 {
                        Wire::One
                    } else if index <= l {
                        Wire::instance(index - 1)
                    } else {
                        Wire::witness(index - 1 - l)
                    };
                    Element(wire, Scalar::from_u64(*element))
                })
                .collect::<Vec<_>>()
        })
        .collect::<Vec<_>>();
    SparseMatrix(rows)
}

/// R1CS for: x^3 + x + 5 = y
fn example_r1cs() -> R1csStructure {
    let m = 4;
    let l = 1;
    let a = dense_to_sparse(
        vec![
            vec![0, 1, 0, 0, 0, 0],
            vec![0, 0, 0, 1, 0, 0],
            vec![0, 1, 0, 0, 1, 0],
            vec![5, 0, 0, 0, 0, 1],
        ],
        l,
    );
    let b = dense_to_sparse(
        vec![
            vec![0, 1, 0, 0, 0, 0],
            vec![0, 1, 0, 0, 0, 0],
            vec![1, 0, 0, 0, 0, 0],
            vec![1, 0, 0, 0, 0, 0],
        ],
        l,
    );
    let c = dense_to_sparse(
        vec![
            vec![0, 0, 0, 1, 0, 0],
            vec![0, 0, 0, 0, 1, 0],
            vec![0, 0, 0, 0, 0, 1],
            vec![0, 0, 1, 0, 0, 0],
        ],
        l,
    );
    R1csStructure::new(m, l, a, b, c)
}

fn example_r1cs_witness(input: u64) -> Vec<Scalar> {
    array_to_witnesses(vec![
        1,
        input,
        input * input * input + input + 5,
        input * input,
        input * input * input,
        input * input * input + input,
    ])
}

fn example_relaxed_r1cs_instance(input: u64) -> RelaxedR1csInstance {
    let r1cs = example_r1cs();
    let z = example_r1cs_witness(input);
    R1csInstance::new(&r1cs, &z).relax()
}

#[test]
fn r1cs_instance_test() {
    let r1cs = example_r1cs();
    for i in 0..100 {
        let z = example_r1cs_witness(i);
        let r1cs_instance = R1csInstance::new(&r1cs, &z);
        assert!(r1cs_instance.is_sat())
    }
}

#[test]
fn relaxed_r1cs_instance_test() {
    for i in 0..100 {
        let relaxed_r1cs_instance = example_relaxed_r1cs_instance(i);
        assert!(relaxed_r1cs_instance.is_sat())
    }
}

#[test]
fn committed_relaxed_r1cs_instance_test() {
    let r1cs = example_r1cs();
    let n = r1cs.m.next_power_of_two() as u64;
    let cs = CommitmentScheme::new(n, &mut OsRng);
    let one = Scalar::one();
    for i in 0..100 {
        let relaxed = example_relaxed_r1cs_instance(i);
        let committed_relaxed_r1cs_instance = cs.commit_relaxed_r1cs_instance(&relaxed, &one, &one);
        assert!(committed_relaxed_r1cs_instance.is_sat())
    }
}

#[test]
fn canonical_example_is_satisfied() {
    // x = 3: y = 35, x^2 = 9, x^3 = 27, x^3 + x = 30
    let r1cs = example_r1cs();
    let z: Vec<Scalar> = [3u64, 35, 9, 27, 30].iter().map(|v| Scalar::from_u64(*v)).collect();
    assert!(R1csInstance::new(&r1cs, &z).is_sat());
}

#[test]
fn wrong_output_is_not_satisfied() {
    let r1cs = example_r1cs();
    let z: Vec<Scalar> = [3u64, 36, 9, 27, 30].iter().map(|v| Scalar::from_u64(*v)).collect();
    let instance = R1csInstance::new(&r1cs, &z);
    assert!(!instance.is_sat());
    assert!(!instance.relax().is_sat());
}

#[test]
fn relax_sets_zero_error_and_unit_scalar() {
    let relaxed = example_relaxed_r1cs_instance(7);
    assert_eq!(relaxed.witness.e.0.len(), 4);
    assert!(relaxed.witness.e.0.iter().all(|e| *e == Scalar::zero()));
    assert_eq!(relaxed.instance.u, Scalar::one());
    assert_eq!(relaxed.instance.x.0, vec![Scalar::from_u64(7)]);
}

#[test]
fn relaxed_relation_with_nonzero_error() {
    // u = 2 and E chosen so that every row balances: E = (A·Z)∘(B·Z) − u·(C·Z)
    let mut relaxed = example_relaxed_r1cs_instance(2);
    relaxed.instance.u = Scalar::from_u64(2);
    assert!(!relaxed.is_sat());
    let u = relaxed.instance.u;
    let x = relaxed.instance.x.0.clone();
    let w = relaxed.witness.w.0.clone();
    let az = relaxed.r1cs.a.prod(4, &u, &x, &w);
    let bz = relaxed.r1cs.b.prod(4, &u, &x, &w);
    let cz = relaxed.r1cs.c.prod(4, &u, &x, &w);
    relaxed.witness.e = az.mul(&bz).sub(&cz.scale(&u));
    assert!(relaxed.is_sat());
}

#[test]
fn zero_scalar_is_not_special_cased() {
    let mut relaxed = example_relaxed_r1cs_instance(2);
    let u = Scalar::zero();
    relaxed.instance.u = u;
    let x = relaxed.instance.x.0.clone();
    let w = relaxed.witness.w.0.clone();
    let az = relaxed.r1cs.a.prod(4, &u, &x, &w);
    let bz = relaxed.r1cs.b.prod(4, &u, &x, &w);
    relaxed.witness.e = az.mul(&bz);
    assert!(relaxed.is_sat());
}

#[test]
fn out_of_range_wire_is_not_satisfied() {
    let mut r1cs = example_r1cs();
    r1cs.a.0[0].push(Element(Wire::witness(9), Scalar::one()));
    let z = example_r1cs_witness(3);
    assert!(!R1csInstance::new(&r1cs, &z).is_sat());
}

#[test]
fn instance_and_witness_split() {
    let r1cs = example_r1cs();
    let z = example_r1cs_witness(4);
    let (instance, witness) = r1cs.instance_and_witness(&z);
    assert_eq!(instance.x.0, vec![Scalar::from_u64(4)]);
    assert_eq!(witness.x.0, vec![Scalar::from_u64(4)]);
    assert_eq!(witness.w.0, z[1..].to_vec());
    assert_eq!(witness.one, Scalar::one());
}

#[test]
fn sparse_product_exact_values() {
    let r1cs = example_r1cs();
    let z = example_r1cs_witness(3);
    let x = z[..1].to_vec();
    let w = z[1..].to_vec();
    let az = r1cs.a.prod(4, &Scalar::one(), &x, &w);
    let expected: Vec<Scalar> = [3u64, 9, 30, 35].iter().map(|v| Scalar::from_u64(*v)).collect();
    assert_eq!(az.0, expected);
    let _ = DenseVectors(expected);
}

#[test]
fn accumulator_fold_exact_values() {
    let base = R1csInstance::new(&example_r1cs(), &example_r1cs_witness(3));
    let acc = example_relaxed_r1cs_instance(4);
    let r = Scalar::from_u64(5);
    let t = Point::random(&mut OsRng);

    let instance = acc.instance.fold(&base.instance, &r, &t);
    assert_eq!(instance.u, Scalar::from_u64(6));
    assert_eq!(instance.x.0, vec![Scalar::from_u64(23)]);
    assert_eq!(instance.commit_w, Point::identity());
    assert_eq!(instance.commit_e, t.mul(&r));

    let cross = DenseVectors(vec![Scalar::from_u64(1); 4]);
    let witness = acc.witness.fold(&base.witness, &r, &cross);
    assert_eq!(witness.e.0, vec![Scalar::from_u64(5); 4]);
    let expected: Vec<Scalar> = [400u64, 89, 347, 370].iter().map(|v| Scalar::from_u64(*v)).collect();
    assert_eq!(witness.w.0, expected);
}
