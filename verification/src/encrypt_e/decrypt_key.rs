//! The secret side of the auxiliary pair encryption scheme.

use super::ciphertext::Ciphertext;
use super::encrypt_key::EncryptKey;
use crate::group::{g1_add, g1_add_of, g1_mul, g1_mul_of, g1_neg, g1_neg_of, Scalar, G1};
use vstd::prelude::*;

verus! {

/// The decryption key: the two secret scalars behind `d1`, `d2`, kept with a
/// copy of the public key. Both slots share one generator.
pub struct DecryptKey {
    pub enc_key: EncryptKey,
    pub x1: Scalar,
    pub x2: Scalar,
}

impl DecryptKey {
    /// Decrypt a ciphertext into its message pair:
    /// `m1 = c1 - x1 * c0`, `m2 = c2 - x2 * c0`.
    pub fn decrypt(&self, c: &Ciphertext) -> (m: (G1, G1))
        ensures
            m.0 == g1_add_of(c.c1, g1_neg_of(g1_mul_of(c.c0, self.x1))),
            m.1 == g1_add_of(c.c2, g1_neg_of(g1_mul_of(c.c0, self.x2))),
    {
        let m1 = g1_add(&c.c1, &g1_neg(&g1_mul(&c.c0, &self.x1)));
        let m2 = g1_add(&c.c2, &g1_neg(&g1_mul(&c.c0, &self.x2)));
        (m1, m2)
    }
}

} // verus!
