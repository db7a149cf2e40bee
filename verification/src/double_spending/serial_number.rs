//! Serial numbers of coins, and their well-formedness proofs.

use crate::group::{G1, G2};
use vstd::prelude::*;

verus! {

/// A coin's serial number: the pair `(M, N)` of G1 points derived from the
/// owner's secret key and a fresh nonce.
pub struct SerialNumber {
    pub m: G1,
    pub n: G1,
}

impl Clone for SerialNumber {
    fn clone(&self) -> (r: Self)
        ensures
            r == *self,
    {
        SerialNumber { m: self.m.clone(), n: self.n.clone() }
    }
}

/// The proof of well-formedness of a serial number: the nonce's G2 image.
pub struct SerialNumberProof {
    pub sn_pf: G2,
}

} // verus!
