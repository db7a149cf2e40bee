//! The public encryption key of the RCCA scheme, and encryption and
//! rerandomization of component vectors.

use super::ciphertext::{ciphertext_valid, fgh_at, v_model, Ciphertext};
use crate::equation::ayxb_model;
use crate::group::{
    clone_g1_vec, fr_one, fr_one_of, fr_rand, g1_add, g1_add_of, g1_mul, g1_mul_of, g1_wsum,
    g1_zero, g1_zero_of, g2_neg, lemma_wsum_singleton, Rng, Scalar, G1,
};
use crate::lhsps::signature::Signature;
use crate::lhsps::verifying_key::{sig_rs, sig_zs, weights, VerifyKey};
use crate::proof_system::{cproof_accepts, create_proof_ayxb, CProof, Crs};
use crate::Error;
use vstd::prelude::*;

verus! {

/// The public encryption key: generators `f`, `g`, the per-slot vector `h`,
/// the common reference structure, the LHSPS verification key of dimension
/// `n + 3`, and two LHSPS signatures issued once at key generation over the
/// fixed basis vectors `v1 = [f, g, 0, ..., 0]` and
/// `v2 = [0, 0, 0, h_1, ..., h_n]`.
pub struct EncryptKey {
    pub f: G1,
    pub g: G1,
    pub h: Vec<G1>,
    pub crs: Crs,
    pub lhsps_sig_v1: Signature,
    pub lhsps_sig_v2: Signature,
    pub lhsps_vk: VerifyKey,
}

impl Clone for EncryptKey {
    fn clone(&self) -> (r: Self)
        ensures
            r.f == self.f,
            r.g == self.g,
            r.h@ == self.h@,
            r.crs == self.crs,
            r.lhsps_sig_v1 == self.lhsps_sig_v1,
            r.lhsps_sig_v2 == self.lhsps_sig_v2,
            r.lhsps_vk.gz == self.lhsps_vk.gz,
            r.lhsps_vk.gr == self.lhsps_vk.gr,
            r.lhsps_vk.pk@ == self.lhsps_vk.pk@,
    {
        EncryptKey {
            f: self.f.clone(),
            g: self.g.clone(),
            h: clone_g1_vec(&self.h),
            crs: self.crs.clone(),
            lhsps_sig_v1: self.lhsps_sig_v1.clone(),
            lhsps_sig_v2: self.lhsps_sig_v2.clone(),
            lhsps_vk: self.lhsps_vk.clone(),
        }
    }
}

/// The first basis vector the LHSPS layer signs at key generation:
/// `v1 = [f, g, 0, ..., 0]` of dimension `n + 3`. It doubles as the vector
/// that the `cpf_w` validity bundle binds.
pub open spec fn basis_v1(ek: EncryptKey) -> Seq<G1> {
    seq![ek.f, ek.g] + Seq::new(ek.dim() + 1, |i: int| g1_zero_of(()))
}

/// The second basis vector the LHSPS layer signs at key generation:
/// `v2 = [0, 0, 0, h_1, ..., h_n]` of dimension `n + 3`.
pub open spec fn basis_v2(ek: EncryptKey) -> Seq<G1> {
    seq![g1_zero_of(()), g1_zero_of(()), g1_zero_of(())] + ek.h@
}

/// The component vector of a ciphertext on message `m` under key `ek` with
/// encryption randomness `phi`:
/// `[f * phi, g * phi, m_1 + h_1 * phi, ..., m_n + h_n * phi]`.
pub open spec fn ct_model(ek: EncryptKey, m: Seq<G1>, phi: Scalar) -> Seq<G1>
    recommends
        m.len() == ek.dim(),
{
    seq![g1_mul_of(ek.f, phi), g1_mul_of(ek.g, phi)] + Seq::new(
        m.len(),
        |i: int| g1_add_of(m[i], g1_mul_of(ek.h@[i], phi)),
    )
}

/// How one rerandomization step with fresh randomness `v` relates the new
/// component vector to the old one: each component is shifted by the matching
/// generator's `v`-multiple, so the pad moves while the plaintext stays.
pub open spec fn rerandomized(ek: EncryptKey, old_c: Seq<G1>, new_c: Seq<G1>, v: Scalar) -> bool {
    &&& new_c.len() == old_c.len()
    &&& new_c[0] == g1_add_of(old_c[0], g1_mul_of(ek.f, v))
    &&& new_c[1] == g1_add_of(old_c[1], g1_mul_of(ek.g, v))
    &&& forall|i: int|
        2 <= i < old_c.len() ==> #[trigger] new_c[i] == g1_add_of(
            old_c[i],
            g1_mul_of(ek.h@[i - 2], v),
        )
}

impl EncryptKey {
    /// The message dimension `n` fixed at key generation.
    pub open spec fn dim(self) -> nat {
        self.h@.len()
    }

    /// The key's internal consistency: the LHSPS layer signs vectors three
    /// slots longer than the message.
    pub open spec fn wf(self) -> bool {
        self.lhsps_vk.dim() == self.dim() + 3
    }

    /// Encrypt `m` with explicit encryption randomness `phi`: form the
    /// padded component vector, derive the two binding signatures from
    /// `sig_v1` by `phi` and by `1`, and build the five proof bundles, each
    /// self-checked at creation. Success carries the full validity relation;
    /// a failure can only be an internal encoding fault of the proof engine,
    /// never an input fault.
    pub fn encrypt_with(&self, rng: &mut Rng, m: &Vec<G1>, phi: &Scalar) -> (res: Result<
        Ciphertext,
        Error,
    >)
        requires
            self.wf(),
            m@.len() == self.dim(),
        ensures
            res matches Ok(ct) ==> ct.c@ == ct_model(*self, m@, *phi) && ciphertext_valid(
                *self,
                ct,
            ),
            res matches Err(e) ==> e == Error::InternalEncodingFault,
    {
        let n = m.len();
        let mut c: Vec<G1> = Vec::new();
        c.push(g1_mul(&self.f, phi));
        c.push(g1_mul(&self.g, phi));
        let mut i: usize = 0;
        while i < n
            invariant
                n == m@.len(),
                m@.len() == self.h@.len(),
                i <= n,
                c@.len() == i + 2,
                c@[0] == g1_mul_of(self.f, *phi),
                c@[1] == g1_mul_of(self.g, *phi),
                forall|k: int|
                    0 <= k < i ==> #[trigger] c@[k + 2] == g1_add_of(
                        m@[k],
                        g1_mul_of(self.h@[k], *phi),
                    ),
            decreases n - i,
        {
            c.push(g1_add(&m[i], &g1_mul(&self.h[i], phi)));
            i = i + 1;
        }
        proof {
            assert forall|k: int| 0 <= k < c@.len() implies c@[k] == ct_model(
                *self,
                m@,
                *phi,
            )[k] by {
                if k >= 2 {
                    assert(c@[(k - 2) + 2] == g1_add_of(m@[k - 2], g1_mul_of(self.h@[k - 2], *phi)));
                }
            }
            assert(c@ =~= ct_model(*self, m@, *phi));
        }
        let cl = c.len();

        // The selector exponent is fixed to 1, so each selector relation
        // e(a, Y) + e(X, g2) = 0 is proven with Y = -g2 and X = a itself.
        let neg_gen = g2_neg(&self.crs.g2_gen);

        let cpf_b = create_proof_ayxb(rng, &self.crs, &self.g, &neg_gen, &self.g, &self.crs.g2_gen)?;

        let mut cpf_ps: Vec<CProof> = Vec::new();
        let mut k: usize = 1;
        while k < cl
            invariant
                cl == n + 2,
                c@.len() == cl,
                n == self.h@.len(),
                1 <= k <= cl,
                cpf_ps@.len() == k - 1,
                forall|t: int|
                    0 <= t < k - 1 ==> cproof_accepts(
                        self.crs,
                        #[trigger] cpf_ps@[t],
                        ayxb_model(c@[t + 1], self.crs.g2_gen),
                    ),
            decreases cl - k,
        {
            let p = create_proof_ayxb(rng, &self.crs, &c[k], &neg_gen, &c[k], &self.crs.g2_gen)?;
            cpf_ps.push(p);
            k = k + 1;
        }

        let (sig_v, sig_w) = self.derive_binding_signatures(phi);

        let mut v: Vec<G1> = Vec::new();
        v.push(c[0].clone());
        v.push(c[1].clone());
        let mut q: usize = 0;
        while q < n + 1
            invariant
                cl == n + 2,
                c@.len() == cl,
                q <= n + 1,
                v@.len() == q + 2,
                v@[0] == c@[0],
                v@[1] == c@[1],
                forall|t: int| 2 <= t < v@.len() ==> #[trigger] v@[t] == g1_zero_of(()),
            decreases n + 1 - q,
        {
            v.push(g1_zero());
            q = q + 1;
        }
        proof {
            assert(v@ =~= v_model(c@));
        }
        let cpf_v = self.lhsps_vk.generate_proof(rng, &self.crs, &v, &sig_v)?;

        let mut cpf_fgh: Vec<CProof> = Vec::new();
        let mut f_i: usize = 0;
        while f_i < cl
            invariant
                cl == n + 2,
                n == self.h@.len(),
                f_i <= cl,
                cpf_fgh@.len() == f_i,
                forall|t: int|
                    0 <= t < f_i ==> cproof_accepts(
                        self.crs,
                        #[trigger] cpf_fgh@[t],
                        ayxb_model(fgh_at(*self, t), self.crs.g2_gen),
                    ),
            decreases cl - f_i,
        {
            let p = if f_i == 0 {
                create_proof_ayxb(rng, &self.crs, &self.f, &neg_gen, &self.f, &self.crs.g2_gen)?
            } else if f_i == 1 {
                create_proof_ayxb(rng, &self.crs, &self.g, &neg_gen, &self.g, &self.crs.g2_gen)?
            } else {
                create_proof_ayxb(
                    rng,
                    &self.crs,
                    &self.h[f_i - 2],
                    &neg_gen,
                    &self.h[f_i - 2],
                    &self.crs.g2_gen,
                )?
            };
            cpf_fgh.push(p);
            f_i = f_i + 1;
        }

        let mut w: Vec<G1> = Vec::new();
        w.push(self.f.clone());
        w.push(self.g.clone());
        let mut l: usize = 0;
        while l < n + 1
            invariant
                cl == n + 2,
                l <= n + 1,
                w@.len() == l + 2,
                w@[0] == self.f,
                w@[1] == self.g,
                forall|t: int| 2 <= t < w@.len() ==> #[trigger] w@[t] == g1_zero_of(()),
            decreases n + 1 - l,
        {
            w.push(g1_zero());
            l = l + 1;
        }
        proof {
            assert(w@ =~= basis_v1(*self));
        }
        let cpf_w = self.lhsps_vk.generate_proof(rng, &self.crs, &w, &sig_w)?;

        let ct = Ciphertext { c, cpf_b, cpf_ps, cpf_v, cpf_fgh, cpf_w };
        proof {
            assert(ciphertext_valid(*self, ct));
        }
        Ok(ct)
    }

    /// Encrypt `m`: draw the encryption randomness from the supplied source
    /// and run [`EncryptKey::encrypt_with`]. Every successful output passes
    /// [`Ciphertext::check_proofs`] under this key.
    pub fn encrypt(&self, rng: &mut Rng, m: &Vec<G1>) -> (res: Result<Ciphertext, Error>)
        requires
            self.wf(),
            m@.len() == self.dim(),
        ensures
            res matches Ok(ct) ==> ciphertext_valid(*self, ct) && (exists|phi: Scalar|
                ct.c@ == ct_model(*self, m@, phi)),
            res matches Err(e) ==> e == Error::InternalEncodingFault,
    {
        let phi = fr_rand(rng);
        match self.encrypt_with(rng, m, &phi) {
            Ok(ct) => {
                proof {
                    assert(ct.c@ == ct_model(*self, m@, phi));
                }
                Ok(ct)
            },
            Err(e) => Err(e),
        }
    }

    /// The two derived LHSPS signatures that an encryption with randomness
    /// `phi` commits to: `phi * sig_v1`, valid on the padded vector
    /// `[c_0, c_1, 0, ..., 0]`, and `1 * sig_v1`, valid on the basis vector
    /// `v1` itself — both obtained through [`VerifyKey::sign_derive`], so the
    /// signer's key is never needed after key generation.
    pub fn derive_binding_signatures(&self, phi: &Scalar) -> (sigs: (Signature, Signature))
        ensures
            sigs.0.z == g1_add_of(g1_zero_of(()), g1_mul_of(self.lhsps_sig_v1.z, *phi)),
            sigs.0.r == g1_add_of(g1_zero_of(()), g1_mul_of(self.lhsps_sig_v1.r, *phi)),
            sigs.1.z == g1_add_of(g1_zero_of(()), g1_mul_of(self.lhsps_sig_v1.z, fr_one_of(()))),
            sigs.1.r == g1_add_of(g1_zero_of(()), g1_mul_of(self.lhsps_sig_v1.r, fr_one_of(()))),
    {
        let weighted_v = vec![(phi.clone(), self.lhsps_sig_v1.clone())];
        let sig_v = self.lhsps_vk.sign_derive(&weighted_v);
        let one = fr_one();
        let weighted_w = vec![(one, self.lhsps_sig_v1.clone())];
        let sig_w = self.lhsps_vk.sign_derive(&weighted_w);
        proof {
            assert(sig_zs(weighted_v@) =~= seq![self.lhsps_sig_v1.z]);
            assert(sig_rs(weighted_v@) =~= seq![self.lhsps_sig_v1.r]);
            assert(weights(weighted_v@) =~= seq![*phi]);
            assert(sig_zs(weighted_w@) =~= seq![self.lhsps_sig_v1.z]);
            assert(sig_rs(weighted_w@) =~= seq![self.lhsps_sig_v1.r]);
            assert(weights(weighted_w@) =~= seq![fr_one_of(())]);
            lemma_wsum_singleton(self.lhsps_sig_v1.z, *phi);
            lemma_wsum_singleton(self.lhsps_sig_v1.r, *phi);
            lemma_wsum_singleton(self.lhsps_sig_v1.z, fr_one_of(()));
            lemma_wsum_singleton(self.lhsps_sig_v1.r, fr_one_of(()));
        }
        (sig_v, sig_w)
    }

    /// Check whether `c` is a well-formed encryption of `m` — an unresolved
    /// extension point. Of the two halves of its intended contract, only the
    /// first exists: the composed proof-bundle gate. The second — that the
    /// pad-stripped components equal `m`, checked through pairing identities
    /// that eliminate the unknown encryption randomness — is deliberately
    /// not invented here, so the verdict covers proof validity alone, and
    /// the contract says exactly that, no more.
    pub fn verify(&self, _m: &Vec<G1>, c: &Ciphertext) -> (r: bool)
        requires
            self.wf(),
        ensures
            r == ciphertext_valid(*self, *c),
    {
        match c.check_proofs(self) {
            Ok(_) => true,
            Err(_) => false,
        }
    }

    /// Rerandomize the component vector in place with explicit randomness
    /// `v`: `c_0 += f * v`, `c_1 += g * v`, `c_{i+2} += h_i * v`. The group
    /// operation is homomorphic over the pad, so the vector decrypts to the
    /// same plaintext under fresh randomness. The five proof bundles are left
    /// untouched: adapting them to the shifted components is the unresolved
    /// extension point of the scheme, so the result does not claim validity
    /// until that refresh exists.
    pub fn rerandomize_with(&self, c: &mut Ciphertext, v: &Scalar)
        requires
            old(c).c@.len() == self.dim() + 2,
        ensures
            rerandomized(*self, old(c).c@, final(c).c@, *v),
            final(c).cpf_b == old(c).cpf_b,
            final(c).cpf_ps@ == old(c).cpf_ps@,
            final(c).cpf_v == old(c).cpf_v,
            final(c).cpf_fgh@ == old(c).cpf_fgh@,
            final(c).cpf_w == old(c).cpf_w,
    {
        let n = self.h.len();
        let _len = c.c.len();
        let mut nc: Vec<G1> = Vec::new();
        nc.push(g1_add(&c.c[0], &g1_mul(&self.f, v)));
        nc.push(g1_add(&c.c[1], &g1_mul(&self.g, v)));
        let mut i: usize = 0;
        while i < n
            invariant
                n + 2 <= usize::MAX,
                n == self.h@.len(),
                c.c@ == old(c).c@,
                old(c).c@.len() == n + 2,
                i <= n,
                nc@.len() == i + 2,
                nc@[0] == g1_add_of(old(c).c@[0], g1_mul_of(self.f, *v)),
                nc@[1] == g1_add_of(old(c).c@[1], g1_mul_of(self.g, *v)),
                forall|k: int|
                    0 <= k < i ==> #[trigger] nc@[k + 2] == g1_add_of(
                        old(c).c@[k + 2],
                        g1_mul_of(self.h@[k], *v),
                    ),
            decreases n - i,
        {
            nc.push(g1_add(&c.c[i + 2], &g1_mul(&self.h[i], v)));
            i = i + 1;
        }
        c.c = nc;
        proof {
            assert forall|k: int| 2 <= k < n + 2 implies c.c@[k] == g1_add_of(
                old(c).c@[k],
                g1_mul_of(self.h@[k - 2], *v),
            ) by {
                assert(c.c@[(k - 2) + 2] == g1_add_of(
                    old(c).c@[(k - 2) + 2],
                    g1_mul_of(self.h@[k - 2], *v),
                ));
            }
        }
    }

    /// Rerandomize the component vector in place with randomness drawn from
    /// the supplied source; the proof bundles await the adaptation step, as
    /// in [`EncryptKey::rerandomize_with`].
    pub fn rerandomize(&self, rng: &mut Rng, c: &mut Ciphertext)
        requires
            old(c).c@.len() == self.dim() + 2,
        ensures
            exists|v: Scalar| rerandomized(*self, old(c).c@, final(c).c@, v),
            final(c).cpf_b == old(c).cpf_b,
            final(c).cpf_ps@ == old(c).cpf_ps@,
            final(c).cpf_v == old(c).cpf_v,
            final(c).cpf_fgh@ == old(c).cpf_fgh@,
            final(c).cpf_w == old(c).cpf_w,
    {
        let v = fr_rand(rng);
        self.rerandomize_with(c, &v);
        proof {
            assert(rerandomized(*self, old(c).c@, c.c@, v));
        }
    }
}

} // verus!
