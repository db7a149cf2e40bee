//! The public side of the one-time LHSPS scheme: verification, derivation of
//! signatures on linear combinations, and the pairing-product statement that a
//! witness-hiding validity proof must verify against.

use super::signature::Signature;
use super::signing_key::SigningKey;
use crate::equation::xbxb_t_model;
use crate::group::{
    g1_add, g1_mul, g1_wsum, g1_zero, g2_add_of, g2_mul_of, gt_add, gt_add_of, gt_eq,
    gt_pairing_sum, gt_zero, pairing, pairing_of, Rng, Scalar, G1, G2, Gt,
};
use crate::proof_system::{
    check_proof_xbxb_t, cproof_accepts, create_proof_xbxb_t, CProof, Crs,
};
use crate::Error;
use vstd::prelude::*;

verus! {

/// The weights of a weighted signature list, projected out.
pub open spec fn weights(ws: Seq<(Scalar, Signature)>) -> Seq<Scalar> {
    ws.map_values(|p: (Scalar, Signature)| p.0)
}

/// The `z` components of a weighted signature list, projected out.
pub open spec fn sig_zs(ws: Seq<(Scalar, Signature)>) -> Seq<G1> {
    ws.map_values(|p: (Scalar, Signature)| p.1.z)
}

/// The `r` components of a weighted signature list, projected out.
pub open spec fn sig_rs(ws: Seq<(Scalar, Signature)>) -> Seq<G1> {
    ws.map_values(|p: (Scalar, Signature)| p.1.r)
}

/// The public verification key: two G2 generators `gz`, `gr` and one public
/// value `pk_i = gz * x_i + gr * y_i` per message slot.
pub struct VerifyKey {
    pub gz: G2,
    pub gr: G2,
    pub pk: Vec<G2>,
}

impl Clone for VerifyKey {
    fn clone(&self) -> (r: Self)
        ensures
            r.gz == self.gz,
            r.gr == self.gr,
            r.pk@ == self.pk@,
    {
        let n = self.pk.len();
        let mut pk: Vec<G2> = Vec::new();
        let mut i: usize = 0;
        while i < n
            invariant
                n == self.pk@.len(),
                i <= n,
                pk@ =~= self.pk@.take(i as int),
            decreases n - i,
        {
            pk.push(self.pk[i].clone());
            i = i + 1;
        }
        proof {
            assert(self.pk@.take(n as int) =~= self.pk@);
        }
        let r = VerifyKey { gz: self.gz.clone(), gr: self.gr.clone(), pk };
        proof {
            assert(r.pk@ =~= self.pk@);
        }
        r
    }
}

impl VerifyKey {
    /// The dimension fixed at setup.
    pub open spec fn dim(self) -> nat {
        self.pk@.len()
    }

    /// Whether this key is the public image of the signing key `sk` under its
    /// own generators.
    pub open spec fn derived_from(self, sk: SigningKey) -> bool {
        &&& self.pk@.len() == sk.xy@.len()
        &&& forall|i: int|
            0 <= i < self.pk@.len() ==> #[trigger] self.pk@[i] == g2_add_of(
                g2_mul_of(self.gz, sk.xy@[i].0),
                g2_mul_of(self.gr, sk.xy@[i].1),
            )
    }

    /// The verification target of a message: `sum_i e(m_i, pk_i)`.
    pub open spec fn target_of(self, m: Seq<G1>) -> Gt {
        gt_pairing_sum(m, self.pk@)
    }

    /// Whether `sig` is accepted on `m`: the message has the key's dimension
    /// and the pairing relation defining a valid pair `(z, r)` holds,
    /// `e(z, gz) + e(r, gr) = sum_i e(m_i, pk_i)`.
    pub open spec fn accepts(self, m: Seq<G1>, sig: Signature) -> bool {
        &&& m.len() == self.dim()
        &&& gt_add_of(pairing_of(sig.z, self.gz), pairing_of(sig.r, self.gr)) == self.target_of(m)
    }

    /// Verify a signature directly: accept iff the pairing relation defining
    /// a valid `(z, r)` against `pk` and `m` holds. A message of the wrong
    /// dimension is rejected, never a crash.
    pub fn verify(&self, m: &Vec<G1>, sig: &Signature) -> (r: bool)
        ensures
            r == self.accepts(m@, *sig),
    {
        if m.len() != self.pk.len() {
            return false;
        }
        let t = self.target(m);
        let lhs = gt_add(&pairing(&sig.z, &self.gz), &pairing(&sig.r, &self.gr));
        gt_eq(&lhs, &t)
    }

    /// Derive the signature on the weighted sum `sum_i w_i * m_i` of signed
    /// messages from the signatures alone: the coordinate-wise weighted sum
    /// `z' = sum_i w_i * z_i`, `r' = sum_i w_i * r_i`. By linearity of
    /// signing, the result is valid on the weighted message sum; the signer
    /// is not involved.
    pub fn sign_derive(&self, weighted: &Vec<(Scalar, Signature)>) -> (sig: Signature)
        ensures
            sig.z == g1_wsum(sig_zs(weighted@), weights(weighted@)),
            sig.r == g1_wsum(sig_rs(weighted@), weights(weighted@)),
    {
        let n = weighted.len();
        let mut z = g1_zero();
        let mut r = g1_zero();
        let mut i: usize = 0;
        while i < n
            invariant
                n == weighted@.len(),
                i <= n,
                z == g1_wsum(sig_zs(weighted@.take(i as int)), weights(weighted@.take(i as int))),
                r == g1_wsum(sig_rs(weighted@.take(i as int)), weights(weighted@.take(i as int))),
            decreases n - i,
        {
            proof {
                assert(sig_zs(weighted@.take(i + 1)).drop_last() =~= sig_zs(
                    weighted@.take(i as int),
                ));
                assert(sig_rs(weighted@.take(i + 1)).drop_last() =~= sig_rs(
                    weighted@.take(i as int),
                ));
                assert(weights(weighted@.take(i + 1)).drop_last() =~= weights(
                    weighted@.take(i as int),
                ));
            }
            z = g1_add(&z, &g1_mul(&weighted[i].1.z, &weighted[i].0));
            r = g1_add(&r, &g1_mul(&weighted[i].1.r, &weighted[i].0));
            i = i + 1;
        }
        proof {
            assert(weighted@.take(n as int) =~= weighted@);
        }
        Signature { z, r }
    }

    /// Produce a witness-hiding proof that `sig` is valid on `m`: wrap the
    /// signature's defining pairing relation as the equation
    /// `e(X1, gz) + e(X2, gr) = sum_i e(m_i, pk_i)` with the pair `(z, r)` as
    /// the hidden X witnesses, and prove it through the commit-and-prove
    /// engine. A message of the wrong dimension is rejected before any group
    /// arithmetic; a failed self-check surfaces as an internal encoding
    /// fault.
    pub fn generate_proof(&self, rng: &mut Rng, crs: &Crs, m: &Vec<G1>, sig: &Signature) -> (res:
        Result<CProof, Error>)
        ensures
            res is Ok ==> m@.len() == self.dim(),
            res matches Ok(p) ==> cproof_accepts(
                *crs,
                p,
                xbxb_t_model(self.gz, self.gr, self.target_of(m@)),
            ),
            res matches Err(e) ==> e == (if m@.len() == self.dim() {
                Error::InternalEncodingFault
            } else {
                Error::DimensionMismatch
            }),
    {
        if m.len() != self.pk.len() {
            return Err(Error::DimensionMismatch);
        }
        let t = self.target(m);
        create_proof_xbxb_t(rng, crs, &sig.z, &self.gz, &sig.r, &self.gr, &t)
    }

    /// Check a witness-hiding proof that some valid signature exists on `m`,
    /// without learning the signature: reconstruct the defining equation and
    /// route it through the engine's verifier. A message of the wrong
    /// dimension, a wrongly tagged bundle, or a failed verification equation
    /// all yield `false`, never a crash.
    pub fn check_proof(&self, crs: &Crs, p: &CProof, m: &Vec<G1>) -> (r: bool)
        ensures
            r == (m@.len() == self.dim() && cproof_accepts(
                *crs,
                *p,
                xbxb_t_model(self.gz, self.gr, self.target_of(m@)),
            )),
    {
        if m.len() != self.pk.len() {
            return false;
        }
        let t = self.target(m);
        check_proof_xbxb_t(crs, p, &self.gz, &self.gr, &t)
    }

    /// Compute the verification target `sum_i e(m_i, pk_i)`.
    fn target(&self, m: &Vec<G1>) -> (t: Gt)
        requires
            m@.len() == self.dim(),
        ensures
            t == self.target_of(m@),
    {
        let n = m.len();
        let mut acc = gt_zero();
        let mut i: usize = 0;
        while i < n
            invariant
                n == m@.len(),
                m@.len() == self.pk@.len(),
                i <= n,
                acc == gt_pairing_sum(m@.take(i as int), self.pk@.take(i as int)),
            decreases n - i,
        {
            proof {
                assert(m@.take(i + 1).drop_last() =~= m@.take(i as int));
                assert(self.pk@.take(i + 1).drop_last() =~= self.pk@.take(i as int));
            }
            acc = gt_add(&acc, &pairing(&m[i], &self.pk[i]));
            i = i + 1;
        }
        proof {
            assert(m@.take(n as int) =~= m@);
            assert(self.pk@.take(n as int) =~= self.pk@);
        }
        acc
    }
}

} // verus!
