use nova::commitment::{CommitmentScheme, PedersenCommitment, Point};
use nova::field::Scalar;
use nova::hash::Digest;

use blake2b_simd::Params;
use jub_jub::{Fp, JubjubAffine};
use rand_core::OsRng;
use zkstd::common::{FftField, SigUtils, TwistedEdwardsCurve};

#[test]
fn digest_matches_personalised_blake2b() {
    let pp: PedersenCommitment = CommitmentScheme::new(2, &mut OsRng);
    let mut state = Params::new().hash_length(64).personal(b"Nova_foldingHash").to_state();
    for g in pp.domain.iter() {
        state.update(&g.to_raw_bytes());
    }
    let expected = Fp::from_hash(state.finalize().as_array()).to_bytes();
    assert_eq!(pp.digest().to_bytes(), expected);
    assert_eq!(pp.size(), 5);
}

#[test]
fn digest_tells_parameter_sets_apart() {
    let a = CommitmentScheme::new(1, &mut OsRng);
    let b = CommitmentScheme::new(1, &mut OsRng);
    assert_eq!(a.digest(), a.digest());
    assert_ne!(a.digest(), b.digest());
}

#[test]
fn digest_of_nothing_fed() {
    let empty = Params::new().hash_length(64).personal(b"Nova_foldingHash").to_state().finalize();
    let expected = Fp::from_hash(empty.as_array()).to_bytes();
    assert_eq!(Digest::default().finalize().to_bytes(), expected);
    let mut d = Digest::default();
    d.update(&[1, 2, 3]);
    assert_ne!(d.finalize(), Digest::default().finalize());
    assert_ne!(d.finalize(), Scalar::zero());
}

#[test]
fn raw_bytes_decode_to_the_same_point() {
    let p = Point::random(&mut OsRng);
    let q = JubjubAffine::from_bytes(p.to_raw_bytes()).unwrap();
    assert_eq!(q.get_x().to_bytes(), p.x_bytes());
    assert_eq!(q.get_y().to_bytes(), p.y_bytes());
}
