use nova::field::Scalar;
use nova::wire::Wire;

use jub_jub::Fp;
use zkstd::common::SigUtils;

fn modulus_bytes() -> [u8; 32] {
    let mut b = [0u8; 32];
    let limbs: [u64; 4] = [
        0xd0970e5ed6f72cb7,
        0xa6682093ccc81082,
        0x06673b0101343b00,
        0x0e7db4ea6533afa9,
    ];
    for (i, l) in limbs.iter().enumerate() {
        b[8 * i..8 * i + 8].copy_from_slice(&l.to_le_bytes());
    }
    b
}

#[test]
fn arithmetic_exact_values() {
    let (a, b) = (Scalar::from_u64(12), Scalar::from_u64(5));
    assert_eq!(a.add(&b), Scalar::from_u64(17));
    assert_eq!(a.sub(&b), Scalar::from_u64(7));
    assert_eq!(a.mul(&b), Scalar::from_u64(60));
    assert_eq!(b.square(), Scalar::from_u64(25));
    assert!(a.equals(&Scalar::from_u64(12)));
    assert!(!a.equals(&b));
}

#[test]
fn subtraction_wraps_around_the_modulus() {
    let minus_one = Scalar::zero().sub(&Scalar::one());
    let mut expected = modulus_bytes();
    expected[0] -= 1;
    assert_eq!(minus_one.to_bytes(), expected);
    assert_eq!(minus_one.add(&Scalar::one()), Scalar::zero());
    assert_eq!(minus_one.mul(&minus_one), Scalar::one());
}

#[test]
fn non_canonical_bytes_are_refused() {
    assert!(Scalar::from_bytes(modulus_bytes()).is_none());
    assert!(Scalar::from_bytes([0xff; 32]).is_none());
    let mut below = modulus_bytes();
    below[0] -= 1;
    assert!(Scalar::from_bytes(below).is_some());
    assert_eq!(Scalar::from_bytes([7; 32].map(|b| b & 0x07)).map(|s| s.to_bytes()), Some([7; 32]));
}

#[test]
fn bytes_round_trip_through_the_field() {
    let s = Scalar::from_u64(0x0102_0304_0506_0708);
    let bytes = s.to_bytes();
    assert_eq!(&bytes[..8], &0x0102_0304_0506_0708u64.to_le_bytes());
    assert_eq!(Scalar::from_bytes(bytes), Some(s));
    assert_eq!(Fp::from(0x0102_0304_0506_0708u64).to_bytes(), bytes);
}

#[test]
fn wide_bytes_reduce_modulo_the_prime() {
    let mut wide = [0u8; 64];
    wide[0] = 9;
    assert_eq!(Scalar::from_bytes_wide(&wide), Scalar::from_u64(9));
    let mut p = [0u8; 64];
    p[..32].copy_from_slice(&modulus_bytes());
    assert_eq!(Scalar::from_bytes_wide(&p), Scalar::zero());
    p[0] += 4;
    assert_eq!(Scalar::from_bytes_wide(&p), Scalar::from_u64(4));
    // 2^256 reduced: the upper half counts too
    let mut high = [0u8; 64];
    high[32] = 1;
    let two_128 = Scalar::from_u64(1 << 32).square().square();
    assert_eq!(Scalar::from_bytes_wide(&high), two_128.square());
}

#[test]
fn wire_constructors() {
    assert_eq!(Wire::one(), Wire::One);
    assert_eq!(Wire::instance(3), Wire::Instance(3));
    assert_eq!(Wire::witness(4), Wire::Witness(4));
}
