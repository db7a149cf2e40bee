//! Tests of the double-spending module over real BLS12-381 arithmetic.

use rand::SeedableRng;
use transferable_ecash::double_spending::detect::detect;
use transferable_ecash::double_spending::public_key::PublicKey;
use transferable_ecash::double_spending::secret_key::SecretKey;
use transferable_ecash::group::{fr_rand, g2_eq, g2_mul, g2_rand, Rng};
use transferable_ecash::params::Params;

fn seeded(seed: u64) -> Rng {
    Rng::seed_from_u64(seed)
}

#[test]
fn first_serial_number_consistent() {
    let rng = &mut seeded(30);
    let params = Params::rand(rng);
    let sk = SecretKey { sk: fr_rand(rng) };
    let pk = PublicKey::from(g2_mul(&params.g, &sk.sk));
    let n = fr_rand(rng);
    let (sn, msgs) = sk.init_serial_number(&params, &n);
    assert!(pk.verify_first_serial_number(&params, &sn, &msgs));
}

#[test]
fn serial_number_consistent() {
    let rng = &mut seeded(31);
    let params = Params::rand(rng);
    let sk = SecretKey { sk: fr_rand(rng) };
    let pk = PublicKey::from(g2_mul(&params.g, &sk.sk));
    let n = fr_rand(rng);
    let (sn, sn_pf) = sk.generate_serial_number(&params, &n);
    assert!(pk.verify_serial_number(&params, &sn, &sn_pf));

    let other = PublicKey::from(g2_rand(rng));
    assert!(!other.verify_serial_number(&params, &sn, &sn_pf));
}

#[test]
fn tag_consistent() {
    let rng = &mut seeded(32);
    let params = Params::rand(rng);
    let sk = SecretKey { sk: fr_rand(rng) };
    let pk = PublicKey::from(g2_mul(&params.g, &sk.sk));
    let n_old = fr_rand(rng);
    let (sn_old, _) = sk.generate_serial_number(&params, &n_old);
    let n_new = fr_rand(rng);
    let (sn_new, _) = sk.generate_serial_number(&params, &n_new);
    let (tag, tag_pf) = sk.generate_tag(&params, &n_new, &sn_old);
    assert!(pk.verify_tag(&params, &sn_new, &sn_old, &tag, &tag_pf));
}

#[test]
fn double_spend_detected_and_guilt_verifiable() {
    let rng = &mut seeded(33);
    let params = Params::rand(rng);
    let sk = SecretKey { sk: fr_rand(rng) };
    let pk = PublicKey::from(g2_mul(&params.g, &sk.sk));

    // Two spends under the same secret key with distinct nonces, each tag
    // bound to its own spend's serial number.
    let n0 = fr_rand(rng);
    let (sn0, _) = sk.generate_serial_number(&params, &n0);
    let (tag0, tag0_pf) = sk.generate_tag(&params, &n0, &sn0);
    let n1 = fr_rand(rng);
    let (sn1, _) = sk.generate_serial_number(&params, &n1);
    let (tag1, tag1_pf) = sk.generate_tag(&params, &n1, &sn1);

    let innocent = PublicKey::from(g2_rand(rng));
    let keys = vec![innocent, pk];
    let (found, proof) = detect(
        &keys,
        &params,
        &sn0,
        &sn1,
        &tag0,
        &tag0_pf,
        &tag1,
        &tag1_pf,
    )
    .unwrap();
    assert!(g2_eq(&found.pk, &g2_mul(&params.g, &sk.sk)));
    assert!(found.verify_guilt(&params, &proof));
}

#[test]
fn unrelated_spends_incriminate_nobody() {
    let rng = &mut seeded(34);
    let params = Params::rand(rng);
    let sk_a = SecretKey { sk: fr_rand(rng) };
    let sk_b = SecretKey { sk: fr_rand(rng) };
    let keys = vec![
        PublicKey::from(g2_mul(&params.g, &sk_a.sk)),
        PublicKey::from(g2_mul(&params.g, &sk_b.sk)),
    ];

    let n0 = fr_rand(rng);
    let (sn0, _) = sk_a.generate_serial_number(&params, &n0);
    let (tag0, tag0_pf) = sk_a.generate_tag(&params, &n0, &sn0);
    let n1 = fr_rand(rng);
    let (sn1, _) = sk_b.generate_serial_number(&params, &n1);
    let (tag1, tag1_pf) = sk_b.generate_tag(&params, &n1, &sn1);

    assert!(detect(
        &keys,
        &params,
        &sn0,
        &sn1,
        &tag0,
        &tag0_pf,
        &tag1,
        &tag1_pf,
    )
    .is_none());
}
