//! Shared public group parameters for the collaborating modules: five
//! generators drawn once from the randomness source.

use crate::group::{g1_rand, g2_rand, Rng, G1, G2};
use vstd::prelude::*;

verus! {

/// Public parameters: one G2 generator `g` and four G1 generators.
pub struct Params {
    pub g1: G1,
    pub g: G2,
    pub g2: G1,
    pub h1: G1,
    pub h2: G1,
}

impl Clone for Params {
    fn clone(&self) -> (r: Self)
        ensures
            r == *self,
    {
        Params {
            g1: self.g1.clone(),
            g: self.g.clone(),
            g2: self.g2.clone(),
            h1: self.h1.clone(),
            h2: self.h2.clone(),
        }
    }
}

impl Params {
    /// Draw a fresh parameter set from the supplied randomness source.
    pub fn rand(rng: &mut Rng) -> Params {
        Params {
            g1: g1_rand(rng),
            g: g2_rand(rng),
            g2: g1_rand(rng),
            h1: g1_rand(rng),
            h2: g1_rand(rng),
        }
    }
}

} // verus!
