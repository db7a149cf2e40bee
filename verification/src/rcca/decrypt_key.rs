//! The secret decryption key of the RCCA scheme.

use super::ciphertext::{ciphertext_valid, Ciphertext};
use super::encrypt_key::EncryptKey;
use crate::group::{g1_add, g1_add_of, g1_mul, g1_mul_of, g1_neg, g1_neg_of, Scalar, G1};
use crate::Error;
use vstd::prelude::*;

verus! {

/// The decryption key: a copy of the public key (a ciphertext must be checked
/// before it is trusted) and the secret scalar vector `alpha`, the trapdoor
/// that strips the pad.
pub struct DecryptKey {
    pub enc_key: EncryptKey,
    pub alpha: Vec<Scalar>,
}

impl DecryptKey {
    /// The key's internal consistency: one trapdoor scalar per message slot.
    pub open spec fn wf(self) -> bool {
        &&& self.alpha@.len() == self.enc_key.dim()
        &&& self.enc_key.wf()
    }

    /// The pad-stripped plaintext of a component vector:
    /// `m_i = c_{i+2} - alpha_i * c_1`, canceling the pad
    /// `h_i * phi = g * (phi * alpha_i)` added at encryption.
    pub open spec fn opened(self, c: Seq<G1>) -> Seq<G1>
        recommends
            c.len() == self.alpha@.len() + 2,
    {
        Seq::new(
            (c.len() - 2) as nat,
            |i: int| g1_add_of(c[i + 2], g1_neg_of(g1_mul_of(c[1], self.alpha@[i]))),
        )
    }

    /// Decrypt a ciphertext. Validity checking runs first, through
    /// [`Ciphertext::check_proofs`] — skipping it would defeat the scheme's
    /// chosen-ciphertext security — and any failure surfaces as the one
    /// opaque rejection. On success the pad is stripped slot by slot with
    /// the trapdoor.
    pub fn decrypt(&self, c: &Ciphertext) -> (res: Result<Vec<G1>, Error>)
        requires
            self.wf(),
        ensures
            res is Ok <==> ciphertext_valid(self.enc_key, *c),
            res matches Ok(m) ==> m@ == self.opened(c.c@),
            res matches Err(e) ==> e == Error::ProofRejected,
    {
        match c.check_proofs(&self.enc_key) {
            Ok(_) => (),
            Err(e) => {
                return Err(e);
            },
        }
        let n = self.alpha.len();
        let cl = c.c.len();
        let mut m: Vec<G1> = Vec::new();
        let mut i: usize = 0;
        while i < n
            invariant
                cl == n + 2,
                n == self.alpha@.len(),
                c.c@.len() == n + 2,
                i <= n,
                m@.len() == i,
                forall|k: int|
                    0 <= k < i ==> #[trigger] m@[k] == g1_add_of(
                        c.c@[k + 2],
                        g1_neg_of(g1_mul_of(c.c@[1], self.alpha@[k])),
                    ),
            decreases n - i,
        {
            m.push(g1_add(&c.c[i + 2], &g1_neg(&g1_mul(&c.c[1], &self.alpha[i]))));
            i = i + 1;
        }
        proof {
            assert(m@ =~= self.opened(c.c@));
        }
        Ok(m)
    }
}

} // verus!
