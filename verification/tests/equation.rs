//! Tests of the pairing-product equation encoder and its direct evaluator.

use rand::SeedableRng;
use transferable_ecash::equation::Equation;
use transferable_ecash::group::{
    g1_rand, g1_zero, g2_neg, g2_rand, g2_zero, gt_add, gt_zero, pairing, Rng,
};

fn seeded(seed: u64) -> Rng {
    Rng::seed_from_u64(seed)
}

#[test]
fn ayxb_satisfied_by_matching_witnesses() {
    let rng = &mut seeded(10);
    let p = g1_rand(rng);
    let q = g2_rand(rng);
    // e(p, -q) + e(p, q) = 0.
    let eq = Equation::ayxb(&p, &q);
    let x = vec![g1_zero(), p.clone()];
    let y = vec![g2_neg(&q)];
    assert!(eq.is_satisfied_by(&x, &y));
}

#[test]
fn ayxb_rejects_wrong_witnesses() {
    let rng = &mut seeded(11);
    let p = g1_rand(rng);
    let q = g2_rand(rng);
    let eq = Equation::ayxb(&p, &q);
    // e(p, q) + e(p, q) = 2 e(p, q) != 0.
    let x = vec![g1_zero(), p.clone()];
    let y = vec![q.clone()];
    assert!(!eq.is_satisfied_by(&x, &y));
}

#[test]
fn xbxb_t_matches_its_target() {
    let rng = &mut seeded(12);
    let x1 = g1_rand(rng);
    let x2 = g1_rand(rng);
    let b1 = g2_rand(rng);
    let b2 = g2_rand(rng);
    let t = gt_add(&pairing(&x1, &b1), &pairing(&x2, &b2));
    let eq = Equation::xbxb_t(&b1, &b2, &t);
    let x = vec![g1_zero(), x1.clone(), x2.clone()];
    let y = vec![g2_zero()];
    assert!(eq.is_satisfied_by(&x, &y));

    let wrong = Equation::xbxb_t(&b1, &b2, &gt_zero());
    assert!(!wrong.is_satisfied_by(&x, &y));
}

#[test]
fn evaluation_is_deterministic() {
    let rng = &mut seeded(13);
    let p = g1_rand(rng);
    let q = g2_rand(rng);
    let eq = Equation::ayxb(&p, &q);
    let x = vec![g1_zero(), p.clone()];
    let y = vec![g2_neg(&q)];
    let first = eq.is_satisfied_by(&x, &y);
    let second = eq.is_satisfied_by(&x, &y);
    assert_eq!(first, second);
}
