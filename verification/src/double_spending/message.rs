//! The message component handed to the bank for signing when a coin is
//! withdrawn.

use crate::group::{G1, G2};
use vstd::prelude::*;

verus! {

/// A message pair `(M, N)`: a G1 point and its G2 companion under the shared
/// parameters.
pub struct Message {
    pub m: G1,
    pub n: G2,
}

} // verus!
