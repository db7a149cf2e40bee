//! One-time linearly homomorphic structure-preserving signatures (LHSPS) over
//! vectors of G1 points.
//!
//! A key pair is bound to one message dimension `n` fixed at setup, and is
//! secure only as a derivation oracle over the linear span of what it has
//! signed: never reuse a key across vectors of a different dimension or an
//! unrelated purpose. Signature verification reduces to a pairing-product
//! equation, so validity can also be proven and checked without revealing
//! the signature (see [`verifying_key::VerifyKey::generate_proof`] and
//! [`verifying_key::VerifyKey::check_proof`]).

pub mod signature;
pub mod signing_key;
pub mod verifying_key;

use crate::group::{fr_rand, g2_add, g2_mul, g2_rand, Rng, Scalar, G2};
use signing_key::SigningKey;
use verifying_key::VerifyKey;
use vstd::prelude::*;

verus! {

/// Generate a key pair for messages of dimension `n`: sample `n` independent
/// scalar pairs `(x_i, y_i)` and two G2 generators, and publish
/// `pk_i = gz * x_i + gr * y_i`. The signing key stays with the caller alone.
pub fn setup(rng: &mut Rng, n: usize) -> (keys: (SigningKey, VerifyKey))
    ensures
        keys.0.dim() == n,
        keys.1.dim() == n,
        keys.1.derived_from(keys.0),
{
    let mut xy: Vec<(Scalar, Scalar)> = Vec::new();
    let mut i: usize = 0;
    while i < n
        invariant
            i <= n,
            xy@.len() == i,
        decreases n - i,
    {
        let x = fr_rand(rng);
        let y = fr_rand(rng);
        xy.push((x, y));
        i = i + 1;
    }

    let gz = g2_rand(rng);
    let gr = g2_rand(rng);

    let mut pk: Vec<G2> = Vec::new();
    let mut j: usize = 0;
    while j < n
        invariant
            j <= n,
            xy@.len() == n,
            pk@.len() == j,
            forall|k: int|
                0 <= k < j ==> #[trigger] pk@[k] == crate::group::g2_add_of(
                    crate::group::g2_mul_of(gz, xy@[k].0),
                    crate::group::g2_mul_of(gr, xy@[k].1),
                ),
        decreases n - j,
    {
        let p = g2_add(&g2_mul(&gz, &xy[j].0), &g2_mul(&gr, &xy[j].1));
        pk.push(p);
        j = j + 1;
    }

    (SigningKey { xy }, VerifyKey { gz, gr, pk })
}

} // verus!
