//! End-to-end tests of the auxiliary pair encryption scheme over real
//! BLS12-381 arithmetic.

use rand::SeedableRng;
use transferable_ecash::encrypt_e::key_gen;
use transferable_ecash::group::{fr_rand, g1_add, g1_eq, g1_rand, Rng};

fn seeded(seed: u64) -> Rng {
    Rng::seed_from_u64(seed)
}

#[test]
fn pair_roundtrip() {
    let rng = &mut seeded(40);
    let (dk, ek) = key_gen(rng);
    let m1 = g1_rand(rng);
    let m2 = g1_rand(rng);
    let c = ek.encrypt(rng, &m1, &m2);
    let (r1, r2) = dk.decrypt(&c);
    assert!(g1_eq(&r1, &m1));
    assert!(g1_eq(&r2, &m2));
}

#[test]
fn pair_roundtrip_with_explicit_randomness() {
    let rng = &mut seeded(41);
    let (dk, ek) = key_gen(rng);
    let m1 = g1_rand(rng);
    let m2 = g1_rand(rng);
    let v = fr_rand(rng);
    let c = ek.encrypt_with(&m1, &m2, &v);
    let (r1, r2) = dk.decrypt(&c);
    assert!(g1_eq(&r1, &m1));
    assert!(g1_eq(&r2, &m2));
    assert!(ek.verify(&m1, &m2, &c, &v));
    assert!(!ek.verify(&m2, &m1, &c, &v) || g1_eq(&m1, &m2));
}

#[test]
fn pair_rerandomization_keeps_the_pair() {
    let rng = &mut seeded(42);
    let (dk, ek) = key_gen(rng);
    let m1 = g1_rand(rng);
    let m2 = g1_rand(rng);
    let c = ek.encrypt(rng, &m1, &m2);
    let c2 = ek.rerandomize(rng, &c);
    assert!(!g1_eq(&c.c0, &c2.c0));
    let (r1, r2) = dk.decrypt(&c2);
    assert!(g1_eq(&r1, &m1));
    assert!(g1_eq(&r2, &m2));
}

#[test]
fn verify_rejects_tampered_ciphertext() {
    let rng = &mut seeded(43);
    let (_dk, ek) = key_gen(rng);
    let m1 = g1_rand(rng);
    let m2 = g1_rand(rng);
    let v = fr_rand(rng);
    let mut c = ek.encrypt_with(&m1, &m2, &v);
    c.c1 = g1_add(&c.c1, &g1_rand(rng));
    assert!(!ek.verify(&m1, &m2, &c, &v));
}
