//! Core of a pairing-based transferable e-cash construction: a replayably-CCA
//! (RCCA) public-key encryption scheme whose ciphertexts are bound together by
//! a one-time linearly homomorphic structure-preserving signature (LHSPS), and
//! whose well-formedness statements are pairing-product equations.
//!
//! The scheme is defined over the BLS12-381 bilinear group; all group
//! arithmetic is performed by the arkworks backend behind the trusted layer in
//! [`group`].

pub mod double_spending;
pub mod encrypt_e;
pub mod equation;
pub mod group;
pub mod lhsps;
pub mod params;
pub mod proof_system;
pub mod rcca;

use vstd::prelude::*;

verus! {

/// The error kinds surfaced by the scheme.
#[derive(Clone, Copy, Debug, PartialEq, Eq, Structural)]
pub enum Error {
    /// A message or key vector had a length other than the dimension fixed at
    /// setup; detected eagerly, before any group arithmetic.
    DimensionMismatch,
    /// A ciphertext failed validity checking. Reported uniformly, whichever of
    /// the composed checks failed, so that rejection leaks no structure.
    ProofRejected,
    /// A just-created proof failed its own immediate self-check; arises only at
    /// the boundary to the pairing-product proof system and indicates an
    /// implementation defect there, never an input fault.
    InternalEncodingFault,
}

} // verus!
