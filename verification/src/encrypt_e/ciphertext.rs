//! The ciphertext of the auxiliary pair encryption scheme.

use crate::group::G1;
use vstd::prelude::*;

verus! {

/// A ciphertext for a message pair `(m1, m2)` encrypted under one shared
/// randomness: `c0 = g * v`, `c1 = m1 + d1 * v`, `c2 = m2 + d2 * v`.
pub struct Ciphertext {
    pub c0: G1,
    pub c1: G1,
    pub c2: G1,
}

impl Clone for Ciphertext {
    fn clone(&self) -> (r: Self)
        ensures
            r == *self,
    {
        Ciphertext { c0: self.c0.clone(), c1: self.c1.clone(), c2: self.c2.clone() }
    }
}

} // verus!
