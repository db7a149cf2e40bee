//! Tests of the commit-and-prove engine over real BLS12-381 arithmetic.

use rand::SeedableRng;
use transferable_ecash::group::{g1_rand, g2_neg, g2_rand, gt_add, gt_zero, pairing, Rng};
use transferable_ecash::proof_system::{
    check_proof_ayxb, check_proof_xbxb_t, create_proof_ayxb, create_proof_xbxb_t, Crs,
};

fn seeded(seed: u64) -> Rng {
    Rng::seed_from_u64(seed)
}

#[test]
fn ayxb_proof_roundtrip() {
    let rng = &mut seeded(50);
    let crs = Crs::rand(rng);
    let a = g1_rand(rng);
    let b = g2_rand(rng);
    // e(a, -b) + e(a, b) = 0, witnesses Y = [-b], X = [0, a].
    let y = g2_neg(&b);
    let p = create_proof_ayxb(rng, &crs, &a, &y, &a, &b).unwrap();
    assert!(check_proof_ayxb(&crs, &p, &a, &b));
}

#[test]
fn ayxb_proof_rejects_other_constant() {
    let rng = &mut seeded(51);
    let crs = Crs::rand(rng);
    let a = g1_rand(rng);
    let b = g2_rand(rng);
    let y = g2_neg(&b);
    let p = create_proof_ayxb(rng, &crs, &a, &y, &a, &b).unwrap();
    let other = g1_rand(rng);
    assert!(!check_proof_ayxb(&crs, &p, &other, &b));
}

#[test]
fn ayxb_proof_rejects_other_structure() {
    let rng = &mut seeded(52);
    let crs = Crs::rand(rng);
    let a = g1_rand(rng);
    let b = g2_rand(rng);
    let y = g2_neg(&b);
    let p = create_proof_ayxb(rng, &crs, &a, &y, &a, &b).unwrap();
    let other_crs = Crs::rand(rng);
    assert!(!check_proof_ayxb(&other_crs, &p, &a, &b));
}

#[test]
fn xbxb_t_proof_roundtrip() {
    let rng = &mut seeded(53);
    let crs = Crs::rand(rng);
    let x1 = g1_rand(rng);
    let x2 = g1_rand(rng);
    let b1 = g2_rand(rng);
    let b2 = g2_rand(rng);
    let t = gt_add(&pairing(&x1, &b1), &pairing(&x2, &b2));
    let p = create_proof_xbxb_t(rng, &crs, &x1, &b1, &x2, &b2, &t).unwrap();
    assert!(check_proof_xbxb_t(&crs, &p, &b1, &b2, &t));
    assert!(!check_proof_xbxb_t(&crs, &p, &b1, &b2, &gt_zero()));
}

#[test]
fn checking_is_deterministic() {
    let rng = &mut seeded(54);
    let crs = Crs::rand(rng);
    let a = g1_rand(rng);
    let b = g2_rand(rng);
    let y = g2_neg(&b);
    let p = create_proof_ayxb(rng, &crs, &a, &y, &a, &b).unwrap();
    let first = check_proof_ayxb(&crs, &p, &a, &b);
    let second = check_proof_ayxb(&crs, &p, &a, &b);
    assert_eq!(first, second);
    assert!(first);
}
