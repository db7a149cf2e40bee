//! Double-spending tags, and their well-formedness proofs.

use crate::group::{G1, G2};
use vstd::prelude::*;

verus! {

/// A double-spending tag `(A, B)`: two G1 points that bind a spend to the
/// spender's secret key, detectable when the same coin is spent twice.
pub struct Tag {
    pub a: G1,
    pub b: G1,
}

/// The proof accompanying a tag: the transaction nonce's G2 image.
pub struct TagProof {
    pub t_pf: G2,
}

} // verus!
