//! The signature pair of the one-time linearly homomorphic
//! structure-preserving signature scheme.

use crate::group::G1;
use vstd::prelude::*;

verus! {

/// A signature `(z, r)`, a pair of G1 points linear in the signed message: a
/// weighted sum of signatures is a valid signature on the same weighted sum of
/// their messages.
pub struct Signature {
    pub z: G1,
    pub r: G1,
}

impl Clone for Signature {
    fn clone(&self) -> (r: Self)
        ensures
            r == *self,
    {
        Signature { z: self.z.clone(), r: self.r.clone() }
    }
}

} // verus!
