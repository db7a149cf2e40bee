//! End-to-end tests of the one-time LHSPS layer over real BLS12-381
//! arithmetic.

use rand::SeedableRng;
use transferable_ecash::group::{fr_rand, g1_add, g1_mul, g1_rand, Rng, G1};
use transferable_ecash::lhsps;
use transferable_ecash::Error;

fn seeded(seed: u64) -> Rng {
    Rng::seed_from_u64(seed)
}

#[test]
fn sign_verify_roundtrip() {
    let rng = &mut seeded(1);
    let (sk, pk) = lhsps::setup(rng, 5);
    let m: Vec<G1> = (0..5).map(|_| g1_rand(rng)).collect();
    let sig = sk.sign(&m).unwrap();
    assert!(pk.verify(&m, &sig));
}

#[test]
fn verify_rejects_other_message() {
    let rng = &mut seeded(2);
    let (sk, pk) = lhsps::setup(rng, 4);
    let m: Vec<G1> = (0..4).map(|_| g1_rand(rng)).collect();
    let sig = sk.sign(&m).unwrap();
    let mut other = Vec::new();
    for (i, mi) in m.iter().enumerate() {
        if i == 2 {
            other.push(g1_add(mi, &g1_rand(rng)));
        } else {
            other.push(mi.clone());
        }
    }
    assert!(!pk.verify(&other, &sig));
}

#[test]
fn sign_dimension_guard() {
    let rng = &mut seeded(3);
    let (sk, pk) = lhsps::setup(rng, 5);
    let short: Vec<G1> = (0..4).map(|_| g1_rand(rng)).collect();
    assert!(matches!(sk.sign(&short), Err(Error::DimensionMismatch)));
    let long: Vec<G1> = (0..6).map(|_| g1_rand(rng)).collect();
    assert!(matches!(sk.sign(&long), Err(Error::DimensionMismatch)));
    let sig = sk.sign(&(0..5).map(|_| g1_rand(rng)).collect()).unwrap();
    assert!(!pk.verify(&short, &sig));
}

#[test]
fn homomorphism_weighted_sum() {
    let rng = &mut seeded(4);
    let (sk, pk) = lhsps::setup(rng, 3);
    let m0: Vec<G1> = (0..3).map(|_| g1_rand(rng)).collect();
    let m1: Vec<G1> = (0..3).map(|_| g1_rand(rng)).collect();
    let sig0 = sk.sign(&m0).unwrap();
    let sig1 = sk.sign(&m1).unwrap();
    let w0 = fr_rand(rng);
    let w1 = fr_rand(rng);
    let combined: Vec<G1> = m0
        .iter()
        .zip(m1.iter())
        .map(|(a, b)| g1_add(&g1_mul(a, &w0), &g1_mul(b, &w1)))
        .collect();
    let derived = pk.sign_derive(&vec![(w0, sig0), (w1, sig1)]);
    assert!(pk.verify(&combined, &derived));
}

#[test]
fn witness_hiding_proof_roundtrip() {
    let rng = &mut seeded(5);
    let crs = transferable_ecash::proof_system::Crs::rand(rng);
    let (sk, pk) = lhsps::setup(rng, 3);
    let m: Vec<G1> = (0..3).map(|_| g1_rand(rng)).collect();
    let sig = sk.sign(&m).unwrap();
    let p = pk.generate_proof(rng, &crs, &m, &sig).unwrap();
    assert!(pk.check_proof(&crs, &p, &m));

    // The proof speaks for this message alone.
    let mut other = m.clone();
    other[1] = g1_add(&other[1], &g1_rand(rng));
    assert!(!pk.check_proof(&crs, &p, &other));
}

#[test]
fn generate_proof_dimension_guard() {
    let rng = &mut seeded(6);
    let crs = transferable_ecash::proof_system::Crs::rand(rng);
    let (sk, pk) = lhsps::setup(rng, 3);
    let m: Vec<G1> = (0..3).map(|_| g1_rand(rng)).collect();
    let sig = sk.sign(&m).unwrap();
    let short: Vec<G1> = (0..2).map(|_| g1_rand(rng)).collect();
    assert!(matches!(
        pk.generate_proof(rng, &crs, &short, &sig),
        Err(Error::DimensionMismatch)
    ));
    let p = pk.generate_proof(rng, &crs, &m, &sig).unwrap();
    assert!(!pk.check_proof(&crs, &p, &short));
}
