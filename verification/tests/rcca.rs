//! End-to-end tests of the RCCA scheme over real BLS12-381 arithmetic,
//! witness-hiding proof bundles included.

use rand::SeedableRng;
use transferable_ecash::group::{fr_rand, g1_add, g1_eq, g1_mul, g1_neg, g1_rand, Rng, G1};
use transferable_ecash::proof_system::Crs;
use transferable_ecash::rcca::key_gen;
use transferable_ecash::Error;

fn seeded(seed: u64) -> Rng {
    Rng::seed_from_u64(seed)
}

#[test]
fn debug_test() {
    let rng = &mut seeded(20);
    let (sk, pk) = key_gen(rng, 5);
    let m: Vec<G1> = (0..5).map(|_| g1_rand(rng)).collect();
    let c = pk.encrypt(rng, &m).unwrap();
    let m_d = sk.decrypt(&c).unwrap();
    assert_eq!(m.len(), m_d.len());
    for i in 0..m.len() {
        assert!(g1_eq(&m[i], &m_d[i]));
    }
}

#[test]
fn roundtrip_smallest_dimension() {
    let rng = &mut seeded(21);
    let (sk, pk) = key_gen(rng, 1);
    let m = vec![g1_rand(rng)];
    let c = pk.encrypt(rng, &m).unwrap();
    let m_d = sk.decrypt(&c).unwrap();
    assert_eq!(m_d.len(), 1);
    assert!(g1_eq(&m[0], &m_d[0]));
}

#[test]
fn concrete_two_slot_scenario() {
    let rng = &mut seeded(22);
    let (dk, ek) = key_gen(rng, 2);
    let p = g1_rand(rng);
    let q = g1_rand(rng);
    assert!(!g1_eq(&p, &q));
    let m = vec![p.clone(), q.clone()];
    let c = ek.encrypt(rng, &m).unwrap();
    let m_d = dk.decrypt(&c).unwrap();
    assert!(g1_eq(&m_d[0], &p) && g1_eq(&m_d[1], &q));

    // Flip one component without touching the proofs: the bundles no longer
    // match the component vector, and decryption rejects opaquely.
    let mut mutated = c.clone();
    mutated.c[2] = g1_add(&mutated.c[2], &g1_rand(rng));
    assert!(matches!(dk.decrypt(&mutated), Err(Error::ProofRejected)));
}

#[test]
fn every_flipped_coordinate_rejected() {
    let rng = &mut seeded(23);
    let (dk, ek) = key_gen(rng, 2);
    let m: Vec<G1> = (0..2).map(|_| g1_rand(rng)).collect();
    let c = ek.encrypt(rng, &m).unwrap();
    for i in 0..c.c.len() {
        let mut mutated = c.clone();
        mutated.c[i] = g1_add(&mutated.c[i], &g1_rand(rng));
        assert!(matches!(dk.decrypt(&mutated), Err(Error::ProofRejected)));
    }
}

#[test]
fn short_ciphertext_rejected() {
    let rng = &mut seeded(24);
    let (dk, ek) = key_gen(rng, 3);
    let m: Vec<G1> = (0..3).map(|_| g1_rand(rng)).collect();
    let mut c = ek.encrypt(rng, &m).unwrap();
    c.c.pop();
    assert!(matches!(dk.decrypt(&c), Err(Error::ProofRejected)));
}

#[test]
fn mismatched_reference_structure_rejected() {
    let rng = &mut seeded(25);
    let (dk, ek) = key_gen(rng, 2);
    let m: Vec<G1> = (0..2).map(|_| g1_rand(rng)).collect();
    let c = ek.encrypt(rng, &m).unwrap();
    assert!(c.check_proofs(&ek).is_ok());

    // A key differing only in its reference structure must reject.
    let mut ek2 = ek.clone();
    ek2.crs = Crs::rand(rng);
    assert!(matches!(c.check_proofs(&ek2), Err(Error::ProofRejected)));
    let mut dk2 = dk;
    dk2.enc_key = ek2;
    assert!(matches!(dk2.decrypt(&c), Err(Error::ProofRejected)));
}

#[test]
fn foreign_bundle_rejected() {
    let rng = &mut seeded(26);
    let (dk, ek) = key_gen(rng, 2);
    let m: Vec<G1> = (0..2).map(|_| g1_rand(rng)).collect();
    let c1 = ek.encrypt(rng, &m).unwrap();
    let c2 = ek.encrypt(rng, &m).unwrap();
    // A bundle lifted from another ciphertext speaks for other components.
    let mut mixed = c1.clone();
    mixed.cpf_ps = c2.cpf_ps;
    assert!(matches!(dk.decrypt(&mixed), Err(Error::ProofRejected)));
}

#[test]
fn derived_signatures_bind_fresh_ciphertexts() {
    let rng = &mut seeded(27);
    let (_dk, ek) = key_gen(rng, 3);
    let m: Vec<G1> = (0..3).map(|_| g1_rand(rng)).collect();
    let phi = fr_rand(rng);
    let c = ek.encrypt_with(rng, &m, &phi).unwrap();

    // v = [c_0, c_1, 0, ..., 0] carries the derived signature phi * sig_v1,
    // and w = [f, g, 0, ..., 0] the derived signature 1 * sig_v1.
    let mut v = vec![c.c[0].clone(), c.c[1].clone()];
    let mut w = vec![ek.f.clone(), ek.g.clone()];
    for _ in 0..4 {
        v.push(transferable_ecash::group::g1_zero());
        w.push(transferable_ecash::group::g1_zero());
    }
    let (sig_v, sig_w) = ek.derive_binding_signatures(&phi);
    assert!(ek.lhsps_vk.verify(&v, &sig_v));
    assert!(ek.lhsps_vk.verify(&w, &sig_w));

    // A tampered component breaks the binding.
    let mut bad_v = v.clone();
    bad_v[0] = g1_add(&bad_v[0], &g1_rand(rng));
    assert!(!ek.lhsps_vk.verify(&bad_v, &sig_v));
}

#[test]
fn rerandomization_keeps_the_plaintext() {
    let rng = &mut seeded(28);
    let (dk, ek) = key_gen(rng, 3);
    let m: Vec<G1> = (0..3).map(|_| g1_rand(rng)).collect();
    let mut c = ek.encrypt(rng, &m).unwrap();
    let before = dk.decrypt(&c).unwrap();
    ek.rerandomize(rng, &mut c);
    // The pad moved but still cancels: strip it with the trapdoor directly.
    for i in 0..3 {
        let opened = g1_add(&c.c[i + 2], &g1_neg(&g1_mul(&c.c[1], &dk.alpha[i])));
        assert!(g1_eq(&opened, &m[i]));
        assert!(g1_eq(&before[i], &m[i]));
    }
    // The proof bundles were not adapted (the open extension point), so the
    // gate refuses the rerandomized ciphertext until they are.
    assert!(matches!(dk.decrypt(&c), Err(Error::ProofRejected)));
}

#[test]
fn verify_covers_the_proof_gate() {
    let rng = &mut seeded(35);
    let (_dk, ek) = key_gen(rng, 2);
    let m: Vec<G1> = (0..2).map(|_| g1_rand(rng)).collect();
    let c = ek.encrypt(rng, &m).unwrap();
    assert!(ek.verify(&m, &c));
    let mut mutated = c.clone();
    mutated.c[1] = g1_add(&mutated.c[1], &g1_rand(rng));
    assert!(!ek.verify(&m, &mutated));
}

#[test]
fn check_proofs_is_deterministic() {
    let rng = &mut seeded(29);
    let (_dk, ek) = key_gen(rng, 2);
    let m: Vec<G1> = (0..2).map(|_| g1_rand(rng)).collect();
    let c = ek.encrypt(rng, &m).unwrap();
    let first = c.check_proofs(&ek).is_ok();
    let second = c.check_proofs(&ek).is_ok();
    assert_eq!(first, second);
    assert!(first);
}
