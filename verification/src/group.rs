//! The bilinear group backend.
//!
//! The scheme works over one bilinear group triple (G1, G2, Gt) with scalar
//! field `Scalar` and pairing map e: G1 x G2 -> Gt, fixed here to BLS12-381.
//! Each element type holds its arkworks point opaquely; the arithmetic is done
//! by the arkworks crates and reached only through the trusted wrappers below,
//! whose contracts name each operation's result with an uninterpreted spec
//! function. Everything above this module is verified against those names.

use ark_ec::pairing::Pairing;
use ark_ec::AffineRepr;
use ark_ec::CurveGroup;
use ark_std::One;
use ark_std::UniformRand;
use ark_std::Zero;
use vstd::prelude::*;

verus! {

/// A point of the first source group, in affine form (a canonical
/// representation: equal points have equal coordinates).
#[verifier::external_body]
pub struct G1 {
    p: ark_bls12_381::G1Affine,
}

/// A point of the second source group, in affine form.
#[verifier::external_body]
pub struct G2 {
    p: ark_bls12_381::G2Affine,
}

/// An element of the target group.
#[verifier::external_body]
pub struct Gt {
    t: ark_ec::pairing::PairingOutput<ark_bls12_381::Bls12_381>,
}

/// An element of the scalar field.
#[verifier::external_body]
pub struct Scalar {
    s: ark_bls12_381::Fr,
}

impl Clone for G1 {
    /// Relies on `Copy` of the arkworks affine point: the clone is the same
    /// point.
    #[verifier::external_body]
    fn clone(&self) -> (r: Self)
        ensures
            r == *self,
    {
        G1 { p: self.p }
    }
}

impl Clone for G2 {
    /// Relies on `Copy` of the arkworks affine point: the clone is the same
    /// point.
    #[verifier::external_body]
    fn clone(&self) -> (r: Self)
        ensures
            r == *self,
    {
        G2 { p: self.p }
    }
}

impl Clone for Gt {
    /// Relies on `Copy` of the arkworks target-group element: the clone is the
    /// same element.
    #[verifier::external_body]
    fn clone(&self) -> (r: Self)
        ensures
            r == *self,
    {
        Gt { t: self.t }
    }
}

impl Clone for Scalar {
    /// Relies on `Copy` of the arkworks field element: the clone is the same
    /// scalar.
    #[verifier::external_body]
    fn clone(&self) -> (r: Self)
        ensures
            r == *self,
    {
        Scalar { s: self.s }
    }
}

#[verifier::external_type_specification]
#[verifier::external_body]
pub struct ExStdRng(ark_std::rand::rngs::StdRng);

/// The randomness source injected into every randomized operation.
pub type Rng = ark_std::rand::rngs::StdRng;

pub uninterp spec fn g1_add_of(a: G1, b: G1) -> G1;

pub uninterp spec fn g1_neg_of(a: G1) -> G1;

pub uninterp spec fn g1_mul_of(a: G1, k: Scalar) -> G1;

pub uninterp spec fn g1_zero_of(unit: ()) -> G1;

pub uninterp spec fn g2_add_of(a: G2, b: G2) -> G2;

pub uninterp spec fn g2_neg_of(a: G2) -> G2;

pub uninterp spec fn g2_mul_of(a: G2, k: Scalar) -> G2;

pub uninterp spec fn g2_zero_of(unit: ()) -> G2;

pub uninterp spec fn fr_add_of(a: Scalar, b: Scalar) -> Scalar;

pub uninterp spec fn fr_zero_of(unit: ()) -> Scalar;

pub uninterp spec fn fr_one_of(unit: ()) -> Scalar;

pub uninterp spec fn pairing_of(a: G1, b: G2) -> Gt;

pub uninterp spec fn gt_add_of(a: Gt, b: Gt) -> Gt;

pub uninterp spec fn gt_neg_of(a: Gt) -> Gt;

pub uninterp spec fn gt_mul_of(a: Gt, k: Scalar) -> Gt;

pub uninterp spec fn gt_zero_of(unit: ()) -> Gt;

/// Relies on `Add` for `ark_ec::short_weierstrass::Affine` (group addition),
/// normalized back to affine form by `CurveGroup::into_affine`.
#[verifier::external_body]
pub fn g1_add(a: &G1, b: &G1) -> (r: G1)
    ensures
        r == g1_add_of(*a, *b),
{
    G1 { p: (a.p + b.p).into_affine() }
}

/// Relies on `Neg` for `ark_ec::short_weierstrass::Affine` (group inverse).
#[verifier::external_body]
pub fn g1_neg(a: &G1) -> (r: G1)
    ensures
        r == g1_neg_of(*a),
{
    G1 { p: -a.p }
}

/// Relies on `Mul` for `ark_ec::short_weierstrass::Affine` (scalar
/// multiplication), normalized back to affine form.
#[verifier::external_body]
pub fn g1_mul(a: &G1, k: &Scalar) -> (r: G1)
    ensures
        r == g1_mul_of(*a, *k),
{
    G1 { p: (a.p * k.s).into_affine() }
}

/// Relies on `ark_ec::AffineRepr::zero`: the group identity.
#[verifier::external_body]
pub fn g1_zero() -> (r: G1)
    ensures
        r == g1_zero_of(()),
{
    G1 { p: ark_bls12_381::G1Affine::zero() }
}

/// Relies on `PartialEq` for `ark_ec::short_weierstrass::Affine`: affine
/// coordinates are canonical, so coordinate equality is point equality.
#[verifier::external_body]
pub fn g1_eq(a: &G1, b: &G1) -> (r: bool)
    ensures
        r == (a == b),
{
    a.p == b.p
}

/// Relies on `ark_std::UniformRand::rand` for G1: a point drawn from the
/// supplied randomness source. Nothing is promised of the outcome.
#[verifier::external_body]
pub fn g1_rand(rng: &mut Rng) -> G1 {
    G1 { p: ark_bls12_381::G1Affine::rand(rng) }
}

/// Relies on `Add` for `ark_ec::short_weierstrass::Affine` (group addition),
/// normalized back to affine form.
#[verifier::external_body]
pub fn g2_add(a: &G2, b: &G2) -> (r: G2)
    ensures
        r == g2_add_of(*a, *b),
{
    G2 { p: (a.p + b.p).into_affine() }
}

/// Relies on `Neg` for `ark_ec::short_weierstrass::Affine` (group inverse).
#[verifier::external_body]
pub fn g2_neg(a: &G2) -> (r: G2)
    ensures
        r == g2_neg_of(*a),
{
    G2 { p: -a.p }
}

/// Relies on `Mul` for `ark_ec::short_weierstrass::Affine` (scalar
/// multiplication), normalized back to affine form.
#[verifier::external_body]
pub fn g2_mul(a: &G2, k: &Scalar) -> (r: G2)
    ensures
        r == g2_mul_of(*a, *k),
{
    G2 { p: (a.p * k.s).into_affine() }
}

/// Relies on `ark_ec::AffineRepr::zero`: the group identity.
#[verifier::external_body]
pub fn g2_zero() -> (r: G2)
    ensures
        r == g2_zero_of(()),
{
    G2 { p: ark_bls12_381::G2Affine::zero() }
}

/// Relies on `PartialEq` for `ark_ec::short_weierstrass::Affine`: affine
/// coordinates are canonical, so coordinate equality is point equality.
#[verifier::external_body]
pub fn g2_eq(a: &G2, b: &G2) -> (r: bool)
    ensures
        r == (a == b),
{
    a.p == b.p
}

/// Relies on `ark_std::UniformRand::rand` for G2: a point drawn from the
/// supplied randomness source. Nothing is promised of the outcome.
#[verifier::external_body]
pub fn g2_rand(rng: &mut Rng) -> G2 {
    G2 { p: ark_bls12_381::G2Affine::rand(rng) }
}

/// Relies on `Add` for `ark_ff::Fp`: scalar-field addition.
#[verifier::external_body]
pub fn fr_add(a: &Scalar, b: &Scalar) -> (r: Scalar)
    ensures
        r == fr_add_of(*a, *b),
{
    Scalar { s: a.s + b.s }
}

/// Relies on `ark_std::Zero::zero` for the scalar field.
#[verifier::external_body]
pub fn fr_zero() -> (r: Scalar)
    ensures
        r == fr_zero_of(()),
{
    Scalar { s: ark_bls12_381::Fr::zero() }
}

/// Relies on `ark_std::One::one` for the scalar field.
#[verifier::external_body]
pub fn fr_one() -> (r: Scalar)
    ensures
        r == fr_one_of(()),
{
    Scalar { s: ark_bls12_381::Fr::one() }
}

/// Relies on `ark_std::UniformRand::rand` for the scalar field: a scalar drawn
/// from the supplied randomness source. Nothing is promised of the outcome.
#[verifier::external_body]
pub fn fr_rand(rng: &mut Rng) -> Scalar {
    Scalar { s: ark_bls12_381::Fr::rand(rng) }
}

/// Relies on `ark_ec::pairing::Pairing::pairing`: the bilinear map
/// e: G1 x G2 -> Gt.
#[verifier::external_body]
pub fn pairing(a: &G1, b: &G2) -> (r: Gt)
    ensures
        r == pairing_of(*a, *b),
{
    Gt { t: ark_bls12_381::Bls12_381::pairing(a.p, b.p) }
}

/// Relies on `Add` for `ark_ec::pairing::PairingOutput` (target-group
/// addition).
#[verifier::external_body]
pub fn gt_add(a: &Gt, b: &Gt) -> (r: Gt)
    ensures
        r == gt_add_of(*a, *b),
{
    Gt { t: a.t + b.t }
}

/// Relies on `Neg` for `ark_ec::pairing::PairingOutput` (target-group
/// inverse).
#[verifier::external_body]
pub fn gt_neg(a: &Gt) -> (r: Gt)
    ensures
        r == gt_neg_of(*a),
{
    Gt { t: -a.t }
}

/// Relies on `Mul` for `ark_ec::pairing::PairingOutput` (scalar action on the
/// target group).
#[verifier::external_body]
pub fn gt_mul(a: &Gt, k: &Scalar) -> (r: Gt)
    ensures
        r == gt_mul_of(*a, *k),
{
    Gt { t: a.t * k.s }
}

/// Relies on `ark_std::Zero::zero` for `ark_ec::pairing::PairingOutput`: the
/// target-group identity.
#[verifier::external_body]
pub fn gt_zero() -> (r: Gt)
    ensures
        r == gt_zero_of(()),
{
    Gt { t: ark_ec::pairing::PairingOutput::<ark_bls12_381::Bls12_381>::zero() }
}

/// Relies on `PartialEq` for `ark_ec::pairing::PairingOutput`: the wrapped
/// target-field representation is canonical.
#[verifier::external_body]
pub fn gt_eq(a: &Gt, b: &Gt) -> (r: bool)
    ensures
        r == (a == b),
{
    a.t == b.t
}

/// Duplicate a vector of G1 points, element by element.
pub fn clone_g1_vec(v: &Vec<G1>) -> (r: Vec<G1>)
    ensures
        r@ == v@,
{
    let n = v.len();
    let mut r: Vec<G1> = Vec::new();
    let mut i: usize = 0;
    while i < n
        invariant
            n == v@.len(),
            i <= n,
            r@ =~= v@.take(i as int),
        decreases n - i,
    {
        r.push(v[i].clone());
        i = i + 1;
    }
    proof {
        assert(v@.take(n as int) =~= v@);
    }
    r
}

/// The weighted sum `sum_i ws[i] * ps[i]` in G1, folded left to right from the
/// identity, exactly as the executable accumulation loops compute it.
pub open spec fn g1_wsum(ps: Seq<G1>, ws: Seq<Scalar>) -> G1
    recommends
        ps.len() == ws.len(),
    decreases ps.len(),
{
    if ps.len() == 0 {
        g1_zero_of(())
    } else {
        g1_add_of(
            g1_wsum(ps.drop_last(), ws.drop_last()),
            g1_mul_of(ps.last(), ws.last()),
        )
    }
}

/// One step of the weighted fold, on a single pair: the identity plus the
/// one weighted point.
pub proof fn lemma_wsum_singleton(p: G1, w: Scalar)
    ensures
        g1_wsum(seq![p], seq![w]) == g1_add_of(g1_zero_of(()), g1_mul_of(p, w)),
{
    assert(seq![p].drop_last() =~= Seq::<G1>::empty());
    assert(seq![w].drop_last() =~= Seq::<Scalar>::empty());
    assert(g1_wsum(Seq::<G1>::empty(), Seq::<Scalar>::empty()) == g1_zero_of(()));
    assert(seq![p].last() == p);
}

/// The sum of pairings `sum_i e(ps[i], qs[i])`, folded left to right from the
/// target-group identity.
pub open spec fn gt_pairing_sum(ps: Seq<G1>, qs: Seq<G2>) -> Gt
    recommends
        ps.len() == qs.len(),
    decreases ps.len(),
{
    if ps.len() == 0 {
        gt_zero_of(())
    } else {
        gt_add_of(
            gt_pairing_sum(ps.drop_last(), qs.drop_last()),
            pairing_of(ps.last(), qs.last()),
        )
    }
}

} // verus!
