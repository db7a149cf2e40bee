//! The replayably-CCA-secure (RCCA) encryption scheme: key generation,
//! encryption, decryption and composed ciphertext-validity checking, built on
//! the pairing-product equation encoder and the one-time LHSPS layer.

pub mod ciphertext;
pub mod decrypt_key;
pub mod encrypt_key;

use crate::group::{
    clone_g1_vec, fr_rand, g1_add_of, g1_mul, g1_mul_of, g1_neg_of, g1_rand, g1_zero, g1_zero_of,
    g2_rand, Rng, Scalar, G1,
};
use crate::lhsps;
use crate::lhsps::signing_key::signs;
use crate::lhsps::signing_key::SigningKey;
use decrypt_key::DecryptKey;
use crate::proof_system::Crs;
use encrypt_key::{basis_v1, basis_v2, ct_model, EncryptKey};
use vstd::pervasive::unreached;
use vstd::prelude::*;

verus! {

/// Generate a key pair for messages of dimension `n`.
///
/// Samples the reference structure and the generators `f`, `g`, draws the
/// trapdoor vector `alpha` and derives `h_i = g * alpha_i`, then runs the
/// LHSPS setup at dimension `n + 3` and issues the two signatures over the
/// basis vectors `v1 = [f, g, 0, ..., 0]` and `v2 = [0, 0, 0, h_1, ..., h_n]`.
/// The ephemeral signing key lives only for the duration of this call and is
/// reachable from neither returned key; the final clause below says exactly
/// that: some key matching the published verification key signed the two
/// basis vectors.
pub fn key_gen(rng: &mut Rng, n: usize) -> (keys: (DecryptKey, EncryptKey))
    requires
        n + 3 <= usize::MAX,
    ensures
        keys.1.dim() == n,
        keys.1.wf(),
        keys.0.wf(),
        keys.0.alpha@.len() == n,
        forall|i: int|
            0 <= i < n ==> #[trigger] keys.1.h@[i] == g1_mul_of(keys.1.g, keys.0.alpha@[i]),
        keys.0.enc_key.f == keys.1.f,
        keys.0.enc_key.g == keys.1.g,
        keys.0.enc_key.h@ == keys.1.h@,
        keys.0.enc_key.crs == keys.1.crs,
        keys.0.enc_key.lhsps_sig_v1 == keys.1.lhsps_sig_v1,
        keys.0.enc_key.lhsps_sig_v2 == keys.1.lhsps_sig_v2,
        keys.0.enc_key.lhsps_vk.gz == keys.1.lhsps_vk.gz,
        keys.0.enc_key.lhsps_vk.gr == keys.1.lhsps_vk.gr,
        keys.0.enc_key.lhsps_vk.pk@ == keys.1.lhsps_vk.pk@,
        exists|tk: SigningKey|
            keys.1.lhsps_vk.derived_from(tk) && #[trigger] signs(
                tk,
                basis_v1(keys.1),
                keys.1.lhsps_sig_v1,
            ) && signs(tk, basis_v2(keys.1), keys.1.lhsps_sig_v2),
{
    let crs = Crs::rand(rng);
    let f = g1_rand(rng);
    let g = g1_rand(rng);

    let mut alpha: Vec<Scalar> = Vec::new();
    let mut i: usize = 0;
    while i < n
        invariant
            i <= n,
            alpha@.len() == i,
        decreases n - i,
    {
        alpha.push(fr_rand(rng));
        i = i + 1;
    }

    let mut h: Vec<G1> = Vec::new();
    let mut j: usize = 0;
    while j < n
        invariant
            j <= n,
            alpha@.len() == n,
            h@.len() == j,
            forall|k: int| 0 <= k < j ==> #[trigger] h@[k] == g1_mul_of(g, alpha@[k]),
        decreases n - j,
    {
        h.push(g1_mul(&g, &alpha[j]));
        j = j + 1;
    }

    let mut v1: Vec<G1> = Vec::new();
    v1.push(f.clone());
    v1.push(g.clone());
    let mut p: usize = 0;
    while p < n + 1
        invariant
            n + 3 <= usize::MAX,
            p <= n + 1,
            v1@.len() == p + 2,
            v1@[0] == f,
            v1@[1] == g,
            forall|t: int| 2 <= t < v1@.len() ==> #[trigger] v1@[t] == g1_zero_of(()),
        decreases n + 1 - p,
    {
        v1.push(g1_zero());
        p = p + 1;
    }

    let mut v2: Vec<G1> = Vec::new();
    v2.push(g1_zero());
    v2.push(g1_zero());
    v2.push(g1_zero());
    let mut q: usize = 0;
    while q < n
        invariant
            q <= n,
            h@.len() == n,
            v2@.len() == q + 3,
            v2@[0] == g1_zero_of(()),
            v2@[1] == g1_zero_of(()),
            v2@[2] == g1_zero_of(()),
            forall|t: int| 0 <= t < q ==> #[trigger] v2@[t + 3] == h@[t],
        decreases n - q,
    {
        v2.push(h[q].clone());
        q = q + 1;
    }

    let (tk, lhsps_vk) = lhsps::setup(rng, n + 3);
    let lhsps_sig_v1 = match tk.sign(&v1) {
        Ok(s) => s,
        Err(_) => unreached(),
    };
    let lhsps_sig_v2 = match tk.sign(&v2) {
        Ok(s) => s,
        Err(_) => unreached(),
    };

    let enc_key = EncryptKey {
        f: f.clone(),
        g: g.clone(),
        h: clone_g1_vec(&h),
        crs: crs.clone(),
        lhsps_sig_v1: lhsps_sig_v1.clone(),
        lhsps_sig_v2: lhsps_sig_v2.clone(),
        lhsps_vk: lhsps_vk.clone(),
    };
    let ek = EncryptKey { f, g, h, crs, lhsps_sig_v1, lhsps_sig_v2, lhsps_vk };
    proof {
        assert(v1@ =~= basis_v1(ek));
        assert forall|x: int| 3 <= x < n + 3 implies v2@[x] == basis_v2(ek)[x] by {
            assert(v2@[(x - 3) + 3] == h@[x - 3]);
        }
        assert(v2@ =~= basis_v2(ek));
        assert(ek.lhsps_vk.derived_from(tk) && signs(tk, basis_v1(ek), ek.lhsps_sig_v1) && signs(
            tk,
            basis_v2(ek),
            ek.lhsps_sig_v2,
        ));
    }
    (DecryptKey { enc_key, alpha }, ek)
}

/// A ciphertext fresh from encryption is never rejected for its shape: its
/// component vector has exactly the expected length, so the validity verdict
/// turns on the proof bundles alone, and decryption opens one slot per
/// message slot, each the encryption pad shifted by the trapdoor term.
pub proof fn lemma_encrypt_well_shaped(dk: DecryptKey, m: Seq<G1>, phi: Scalar)
    requires
        dk.wf(),
        m.len() == dk.enc_key.dim(),
    ensures
        ct_model(dk.enc_key, m, phi).len() == dk.alpha@.len() + 2,
        dk.opened(ct_model(dk.enc_key, m, phi)).len() == m.len(),
        forall|i: int|
            0 <= i < m.len() ==> #[trigger] dk.opened(ct_model(dk.enc_key, m, phi))[i]
                == g1_add_of(
                g1_add_of(m[i], g1_mul_of(dk.enc_key.h@[i], phi)),
                g1_neg_of(g1_mul_of(g1_mul_of(dk.enc_key.g, phi), dk.alpha@[i])),
            ),
{
    let c = ct_model(dk.enc_key, m, phi);
    assert forall|i: int| 0 <= i < m.len() implies #[trigger] dk.opened(c)[i]
        == g1_add_of(
        g1_add_of(m[i], g1_mul_of(dk.enc_key.h@[i], phi)),
        g1_neg_of(g1_mul_of(g1_mul_of(dk.enc_key.g, phi), dk.alpha@[i])),
    ) by {
        assert(c[i + 2] == g1_add_of(m[i], g1_mul_of(dk.enc_key.h@[i], phi)));
        assert(c[1] == g1_mul_of(dk.enc_key.g, phi));
    }
}

} // verus!
