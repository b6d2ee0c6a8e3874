use nova::constraint_system::ConstraintSystem;
use nova::field::Scalar;

#[test]
fn equal_constraint_test() {
    let x = Scalar::one().add(&Scalar::one());

    let mut cs = ConstraintSystem::new();
    let (a, b) = (cs.public_wire(x), cs.public_wire(x));
    cs.equal_constraint(a, b);

    assert!(cs.is_sat())
}

#[test]
fn mul_constraint_test() {
    let x = Scalar::one().add(&Scalar::one());
    let y = x.add(&x);
    let z = x.mul(&y);

    let mut cs = ConstraintSystem::new();
    let (a, b, c) = (cs.public_wire(x), cs.public_wire(y), cs.public_wire(z));
    cs.mul_constraint(a, b, c);

    assert!(cs.is_sat())
}

#[test]
fn arithmetic_constraint_test() {
    // R1CS for: x^3 + x + 5 = 35
    let x = Scalar::from_u64(3);
    let xx = x.square();
    let y = Scalar::from_u64(27);
    let xy = Scalar::from_u64(30);
    let five = Scalar::from_u64(5);
    let output = Scalar::from_u64(35);

    let mut cs = ConstraintSystem::new();
    let (a, b, e, f) = (
        cs.public_wire(x),
        cs.public_wire(y),
        cs.public_wire(output),
        cs.public_wire(five),
    );
    let (c, d) = (cs.private_wire(xx), cs.private_wire(xy));

    // first: x * x = x^2
    cs.mul_constraint(a, a, c);
    // second: x^2 * x = y
    cs.mul_constraint(a, c, b);
    // third: y + x = sym2
    cs.add_constraint(b, a, d);
    // forth: sym2 + 5 = 35
    cs.add_constraint(d, f, e);

    assert!(cs.is_sat())
}

#[test]
fn unequal_values_fail_equal_constraint() {
    let mut cs = ConstraintSystem::new();
    let (a, b) = (cs.public_wire(Scalar::from_u64(2)), cs.public_wire(Scalar::from_u64(3)));
    cs.equal_constraint(a, b);
    assert!(!cs.is_sat())
}

#[test]
fn wrong_sum_fails_add_constraint() {
    let mut cs = ConstraintSystem::new();
    let a = cs.public_wire(Scalar::from_u64(2));
    let b = cs.public_wire(Scalar::from_u64(3));
    let c = cs.private_wire(Scalar::from_u64(6));
    cs.add_constraint(a, b, c);
    assert!(!cs.is_sat())
}
