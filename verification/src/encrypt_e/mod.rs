//! The auxiliary pair encryption scheme: two one-point encryptions of
//! ElGamal shape sharing one generator and one randomness per call. A thin
//! collaborator beside the core; each operation is one or two group
//! operations per component, stated exactly.

pub mod ciphertext;
pub mod decrypt_key;
pub mod encrypt_key;

use crate::group::{fr_rand, g1_mul, g1_mul_of, g1_rand, Rng};
use decrypt_key::DecryptKey;
use encrypt_key::EncryptKey;
use vstd::prelude::*;

verus! {

/// Generate a key pair: draw the shared generator and the two secret
/// scalars, and publish `d1 = g * x1`, `d2 = g * x2`.
pub fn key_gen(rng: &mut Rng) -> (keys: (DecryptKey, EncryptKey))
    ensures
        keys.0.enc_key == keys.1,
        keys.1.d1 == g1_mul_of(keys.1.g, keys.0.x1),
        keys.1.d2 == g1_mul_of(keys.1.g, keys.0.x2),
{
    let g = g1_rand(rng);
    let x1 = fr_rand(rng);
    let x2 = fr_rand(rng);
    let d1 = g1_mul(&g, &x1);
    let d2 = g1_mul(&g, &x2);
    let ek = EncryptKey { g, d1, d2 };
    (DecryptKey { enc_key: ek.clone(), x1, x2 }, ek)
}

} // verus!
