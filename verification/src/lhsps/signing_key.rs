//! The signing side of the one-time LHSPS scheme.

use super::signature::Signature;
use crate::group::{g1_add, g1_mul, g1_wsum, g1_zero, Scalar, G1};
use crate::Error;
use vstd::prelude::*;

verus! {

/// The scalar components of a key pair `(x_i, y_i)`, projected out.
pub open spec fn firsts(xy: Seq<(Scalar, Scalar)>) -> Seq<Scalar> {
    xy.map_values(|p: (Scalar, Scalar)| p.0)
}

/// The scalar components of a key pair `(x_i, y_i)`, projected out.
pub open spec fn seconds(xy: Seq<(Scalar, Scalar)>) -> Seq<Scalar> {
    xy.map_values(|p: (Scalar, Scalar)| p.1)
}

/// The signing key: one scalar pair per message slot, its length the
/// dimension fixed at setup. Owned solely by the signer.
pub struct SigningKey {
    pub xy: Vec<(Scalar, Scalar)>,
}

/// Whether `sig` is what signing `m` under `sk` yields: the message has the
/// key's dimension and the pair is the two weighted sums of
/// [`SigningKey::sign`].
pub open spec fn signs(sk: SigningKey, m: Seq<G1>, sig: Signature) -> bool {
    &&& m.len() == sk.dim()
    &&& sig.z == g1_wsum(m, firsts(sk.xy@))
    &&& sig.r == g1_wsum(m, seconds(sk.xy@))
}

impl SigningKey {
    /// The dimension fixed at setup.
    pub open spec fn dim(self) -> nat {
        self.xy@.len()
    }

    /// Sign a message vector: `z = sum_i x_i * m_i`, `r = sum_i y_i * m_i`.
    /// Deterministic; a message of any length other than the key's dimension
    /// is rejected before any group arithmetic.
    pub fn sign(&self, m: &Vec<G1>) -> (res: Result<Signature, Error>)
        ensures
            res is Ok <==> m@.len() == self.dim(),
            res matches Ok(sig) ==> sig.z == g1_wsum(m@, firsts(self.xy@)) && sig.r == g1_wsum(
                m@,
                seconds(self.xy@),
            ),
            res matches Err(e) ==> e == Error::DimensionMismatch,
    {
        if self.xy.len() != m.len() {
            return Err(Error::DimensionMismatch);
        }
        let n = m.len();
        let mut z = g1_zero();
        let mut r = g1_zero();
        let mut i: usize = 0;
        while i < n
            invariant
                n == m@.len(),
                m@.len() == self.xy@.len(),
                i <= n,
                z == g1_wsum(m@.take(i as int), firsts(self.xy@.take(i as int))),
                r == g1_wsum(m@.take(i as int), seconds(self.xy@.take(i as int))),
            decreases n - i,
        {
            proof {
                assert(m@.take(i + 1).drop_last() =~= m@.take(i as int));
                assert(firsts(self.xy@.take(i + 1)).drop_last() =~= firsts(
                    self.xy@.take(i as int),
                ));
                assert(seconds(self.xy@.take(i + 1)).drop_last() =~= seconds(
                    self.xy@.take(i as int),
                ));
            }
            z = g1_add(&z, &g1_mul(&m[i], &self.xy[i].0));
            r = g1_add(&r, &g1_mul(&m[i], &self.xy[i].1));
            i = i + 1;
        }
        proof {
            assert(m@.take(n as int) =~= m@);
            assert(self.xy@.take(n as int) =~= self.xy@);
        }
        Ok(Signature { z, r })
    }
}

} // verus!
