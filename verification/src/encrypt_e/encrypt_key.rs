//! The public side of the auxiliary pair encryption scheme.

use super::ciphertext::Ciphertext;
use crate::group::{
    fr_rand, g1_add, g1_add_of, g1_eq, g1_mul, g1_mul_of, Rng, Scalar, G1,
};
use vstd::prelude::*;

verus! {

/// The encryption key: the shared generator and the two per-slot public
/// points `d1 = g * x1`, `d2 = g * x2`.
pub struct EncryptKey {
    pub g: G1,
    pub d1: G1,
    pub d2: G1,
}

impl Clone for EncryptKey {
    fn clone(&self) -> (r: Self)
        ensures
            r == *self,
    {
        EncryptKey { g: self.g.clone(), d1: self.d1.clone(), d2: self.d2.clone() }
    }
}

/// The ciphertext on `(m1, m2)` under `ek` with randomness `v`.
pub open spec fn pair_ct_model(ek: EncryptKey, m1: G1, m2: G1, v: Scalar) -> Ciphertext {
    Ciphertext {
        c0: g1_mul_of(ek.g, v),
        c1: g1_add_of(m1, g1_mul_of(ek.d1, v)),
        c2: g1_add_of(m2, g1_mul_of(ek.d2, v)),
    }
}

impl EncryptKey {
    /// Encrypt a message pair with explicit randomness `v`: one shared
    /// first component, one padded component per message.
    pub fn encrypt_with(&self, m1: &G1, m2: &G1, v: &Scalar) -> (c: Ciphertext)
        ensures
            c == pair_ct_model(*self, *m1, *m2, *v),
    {
        Ciphertext {
            c0: g1_mul(&self.g, v),
            c1: g1_add(m1, &g1_mul(&self.d1, v)),
            c2: g1_add(m2, &g1_mul(&self.d2, v)),
        }
    }

    /// Encrypt a message pair with randomness drawn from the supplied source.
    pub fn encrypt(&self, rng: &mut Rng, m1: &G1, m2: &G1) -> (c: Ciphertext)
        ensures
            exists|v: Scalar| c == pair_ct_model(*self, *m1, *m2, v),
    {
        let v = fr_rand(rng);
        let c = self.encrypt_with(m1, m2, &v);
        proof {
            assert(c == pair_ct_model(*self, *m1, *m2, v));
        }
        c
    }

    /// Rerandomize a ciphertext with randomness drawn from the supplied
    /// source: shift each component by the matching generator's multiple, so
    /// the result decrypts to the same pair under fresh randomness.
    pub fn rerandomize(&self, rng: &mut Rng, c: &Ciphertext) -> (r: Ciphertext)
        ensures
            exists|v: Scalar|
                r == (Ciphertext {
                    c0: g1_add_of(c.c0, g1_mul_of(self.g, v)),
                    c1: g1_add_of(c.c1, g1_mul_of(self.d1, v)),
                    c2: g1_add_of(c.c2, g1_mul_of(self.d2, v)),
                }),
    {
        let v = fr_rand(rng);
        let r = Ciphertext {
            c0: g1_add(&c.c0, &g1_mul(&self.g, &v)),
            c1: g1_add(&c.c1, &g1_mul(&self.d1, &v)),
            c2: g1_add(&c.c2, &g1_mul(&self.d2, &v)),
        };
        proof {
            assert(r == (Ciphertext {
                c0: g1_add_of(c.c0, g1_mul_of(self.g, v)),
                c1: g1_add_of(c.c1, g1_mul_of(self.d1, v)),
                c2: g1_add_of(c.c2, g1_mul_of(self.d2, v)),
            }));
        }
        r
    }

    /// Check that `c` encrypts `(m1, m2)` under randomness `v`: equivalent to
    /// re-encrypting the pair and comparing the ciphertexts component by
    /// component.
    pub fn verify(&self, m1: &G1, m2: &G1, c: &Ciphertext, v: &Scalar) -> (r: bool)
        ensures
            r == (*c == pair_ct_model(*self, *m1, *m2, *v)),
    {
        let expected = self.encrypt_with(m1, m2, v);
        let r = g1_eq(&c.c0, &expected.c0) && g1_eq(&c.c1, &expected.c1) && g1_eq(
            &c.c2,
            &expected.c2,
        );
        proof {
            if c.c0 == expected.c0 && c.c1 == expected.c1 && c.c2 == expected.c2 {
                assert(*c == expected);
            }
        }
        r
    }
}

} // verus!
