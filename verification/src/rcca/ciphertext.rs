//! The RCCA ciphertext and its composed validity checking.
//!
//! A ciphertext carries, beside the component vector `c`, five witness-hiding
//! proof bundles: `cpf_b` (selector well-formedness for `g`), one `cpf_ps`
//! entry per `c_i` with `i >= 1`, `cpf_v` (a derived LHSPS signature binds
//! `[c_0, c_1, 0, ..., 0]`), one `cpf_fgh` entry per element of
//! `[f, g, h_1, ..., h_n]`, and `cpf_w` (a derived signature binds
//! `[f, g, 0, ..., 0]`). [`Ciphertext::check_proofs`] is the single gate all
//! decryption and verification paths pass through: it checks every bundle
//! against its statement under the scheme's own reference structure, and any
//! failure yields one opaque rejection.

use super::encrypt_key::{basis_v1, EncryptKey};
use crate::equation::{ayxb_model, xbxb_t_model};
use crate::group::{clone_g1_vec, g1_zero, g1_zero_of, G1};
use crate::proof_system::{
    check_proof_ayxb, clone_cproof_vec, cproof_accepts, cproof_same, CProof,
};
use crate::Error;
use vstd::prelude::*;

verus! {

/// An RCCA ciphertext: the component vector
/// `[f * phi, g * phi, m_1 + h_1 * phi, ..., m_n + h_n * phi]` and the five
/// proof bundles that make it publicly checkable.
pub struct Ciphertext {
    pub c: Vec<G1>,
    pub cpf_b: CProof,
    pub cpf_ps: Vec<CProof>,
    pub cpf_v: CProof,
    pub cpf_fgh: Vec<CProof>,
    pub cpf_w: CProof,
}

impl Clone for Ciphertext {
    fn clone(&self) -> (r: Self)
        ensures
            r.c@ == self.c@,
            cproof_same(r.cpf_b, self.cpf_b),
            r.cpf_ps@.len() == self.cpf_ps@.len(),
            forall|i: int|
                0 <= i < self.cpf_ps@.len() ==> cproof_same(#[trigger] r.cpf_ps@[i], self.cpf_ps@[i]),
            cproof_same(r.cpf_v, self.cpf_v),
            r.cpf_fgh@.len() == self.cpf_fgh@.len(),
            forall|i: int|
                0 <= i < self.cpf_fgh@.len() ==> cproof_same(
                    #[trigger] r.cpf_fgh@[i],
                    self.cpf_fgh@[i],
                ),
            cproof_same(r.cpf_w, self.cpf_w),
    {
        Ciphertext {
            c: clone_g1_vec(&self.c),
            cpf_b: self.cpf_b.clone(),
            cpf_ps: clone_cproof_vec(&self.cpf_ps),
            cpf_v: self.cpf_v.clone(),
            cpf_fgh: clone_cproof_vec(&self.cpf_fgh),
            cpf_w: self.cpf_w.clone(),
        }
    }
}

/// The vector that the `cpf_v` bundle's derived signature must bind:
/// `[c_0, c_1, 0, ..., 0]`, one slot longer than `c` so that it has the LHSPS
/// dimension `n + 3`.
pub open spec fn v_model(c: Seq<G1>) -> Seq<G1>
    recommends
        c.len() >= 2,
{
    seq![c[0], c[1]] + Seq::new((c.len() - 1) as nat, |i: int| g1_zero_of(()))
}

/// The element of `[f, g, h_1, ..., h_n]` that the `i`-th `cpf_fgh` bundle
/// speaks for.
pub open spec fn fgh_at(ek: EncryptKey, i: int) -> G1
    recommends
        0 <= i < ek.dim() + 2,
{
    if i == 0 {
        ek.f
    } else if i == 1 {
        ek.g
    } else {
        ek.h@[i - 2]
    }
}

/// The composed validity relation of a ciphertext under a key, the
/// conjunction every decryption and verification path requires: the component
/// vector and both bundle lists have their expected lengths, and each of the
/// five kinds of bundle verifies against its statement under the key's own
/// reference structure — a bundle made under any other structure fails here.
pub open spec fn ciphertext_valid(ek: EncryptKey, ct: Ciphertext) -> bool {
    &&& ct.c@.len() == ek.dim() + 2
    &&& ct.cpf_ps@.len() == ek.dim() + 1
    &&& ct.cpf_fgh@.len() == ek.dim() + 2
    &&& cproof_accepts(ek.crs, ct.cpf_b, ayxb_model(ek.g, ek.crs.g2_gen))
    &&& forall|i: int|
        0 <= i < ct.cpf_ps@.len() ==> cproof_accepts(
            ek.crs,
            #[trigger] ct.cpf_ps@[i],
            ayxb_model(ct.c@[i + 1], ek.crs.g2_gen),
        )
    &&& cproof_accepts(
        ek.crs,
        ct.cpf_v,
        xbxb_t_model(ek.lhsps_vk.gz, ek.lhsps_vk.gr, ek.lhsps_vk.target_of(v_model(ct.c@))),
    )
    &&& forall|i: int|
        0 <= i < ct.cpf_fgh@.len() ==> cproof_accepts(
            ek.crs,
            #[trigger] ct.cpf_fgh@[i],
            ayxb_model(fgh_at(ek, i), ek.crs.g2_gen),
        )
    &&& cproof_accepts(
        ek.crs,
        ct.cpf_w,
        xbxb_t_model(ek.lhsps_vk.gz, ek.lhsps_vk.gr, ek.lhsps_vk.target_of(basis_v1(ek))),
    )
}

impl Ciphertext {
    /// Check all proofs of the ciphertext: the single gate of the scheme.
    /// Accepts exactly when [`ciphertext_valid`] holds of the ciphertext
    /// under the key; any failure — a wrong length, a wrongly tagged bundle,
    /// an unbalanced verification equation, a bundle made under a different
    /// reference structure — yields the one opaque rejection, and which
    /// check failed is never revealed.
    pub fn check_proofs(&self, ek: &EncryptKey) -> (res: Result<(), Error>)
        requires
            ek.wf(),
        ensures
            res is Ok <==> ciphertext_valid(*ek, *self),
            res matches Err(e) ==> e == Error::ProofRejected,
    {
        let n = ek.h.len();
        let cl = self.c.len();
        if cl < 2 || cl - 2 != n {
            return Err(Error::ProofRejected);
        }
        if self.cpf_ps.len() != cl - 1 {
            return Err(Error::ProofRejected);
        }
        if self.cpf_fgh.len() != cl {
            return Err(Error::ProofRejected);
        }

        if !check_proof_ayxb(&ek.crs, &self.cpf_b, &ek.g, &ek.crs.g2_gen) {
            return Err(Error::ProofRejected);
        }

        let mut i: usize = 1;
        while i < cl
            invariant
                n == ek.dim(),
                cl == n + 2,
                self.c@.len() == cl,
                self.cpf_ps@.len() == cl - 1,
                1 <= i <= cl,
                forall|k: int|
                    0 <= k < i - 1 ==> cproof_accepts(
                        ek.crs,
                        #[trigger] self.cpf_ps@[k],
                        ayxb_model(self.c@[k + 1], ek.crs.g2_gen),
                    ),
            decreases cl - i,
        {
            if !check_proof_ayxb(&ek.crs, &self.cpf_ps[i - 1], &self.c[i], &ek.crs.g2_gen) {
                proof {
                    assert(!cproof_accepts(
                        ek.crs,
                        self.cpf_ps@[i - 1],
                        ayxb_model(self.c@[(i - 1) + 1], ek.crs.g2_gen),
                    ));
                }
                return Err(Error::ProofRejected);
            }
            proof {
                assert(cproof_accepts(
                    ek.crs,
                    self.cpf_ps@[i - 1],
                    ayxb_model(self.c@[(i - 1) + 1], ek.crs.g2_gen),
                ));
            }
            i = i + 1;
        }

        let mut v: Vec<G1> = Vec::new();
        v.push(self.c[0].clone());
        v.push(self.c[1].clone());
        let mut j: usize = 0;
        while j < n + 1
            invariant
                cl == n + 2,
                self.c@.len() == cl,
                j <= n + 1,
                v@.len() == j + 2,
                v@[0] == self.c@[0],
                v@[1] == self.c@[1],
                forall|t: int| 2 <= t < v@.len() ==> #[trigger] v@[t] == g1_zero_of(()),
            decreases n + 1 - j,
        {
            v.push(g1_zero());
            j = j + 1;
        }
        proof {
            assert(v@ =~= v_model(self.c@));
        }
        if !ek.lhsps_vk.check_proof(&ek.crs, &self.cpf_v, &v) {
            return Err(Error::ProofRejected);
        }

        let mut k: usize = 0;
        while k < cl
            invariant
                n == ek.dim(),
                cl == n + 2,
                ek.h@.len() == n,
                self.cpf_fgh@.len() == cl,
                k <= cl,
                forall|t: int|
                    0 <= t < k ==> cproof_accepts(
                        ek.crs,
                        #[trigger] self.cpf_fgh@[t],
                        ayxb_model(fgh_at(*ek, t), ek.crs.g2_gen),
                    ),
            decreases cl - k,
        {
            let ok = if k == 0 {
                check_proof_ayxb(&ek.crs, &self.cpf_fgh[k], &ek.f, &ek.crs.g2_gen)
            } else if k == 1 {
                check_proof_ayxb(&ek.crs, &self.cpf_fgh[k], &ek.g, &ek.crs.g2_gen)
            } else {
                check_proof_ayxb(&ek.crs, &self.cpf_fgh[k], &ek.h[k - 2], &ek.crs.g2_gen)
            };
            if !ok {
                return Err(Error::ProofRejected);
            }
            k = k + 1;
        }

        let mut w: Vec<G1> = Vec::new();
        w.push(ek.f.clone());
        w.push(ek.g.clone());
        let mut l: usize = 0;
        while l < n + 1
            invariant
                cl == n + 2,
                l <= n + 1,
                w@.len() == l + 2,
                w@[0] == ek.f,
                w@[1] == ek.g,
                forall|t: int| 2 <= t < w@.len() ==> #[trigger] w@[t] == g1_zero_of(()),
            decreases n + 1 - l,
        {
            w.push(g1_zero());
            l = l + 1;
        }
        proof {
            assert(w@ =~= basis_v1(*ek));
        }
        if !ek.lhsps_vk.check_proof(&ek.crs, &self.cpf_w, &w) {
            return Err(Error::ProofRejected);
        }

        Ok(())
    }
}

} // verus!
