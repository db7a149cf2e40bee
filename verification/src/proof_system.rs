//! The commit-and-prove engine for pairing-product equations.
//!
//! Witnesses are committed in the doubled groups B1 = G1 x G1 and
//! B2 = G2 x G2 over the two commitment-basis pairs of the [`Crs`]; a proof
//! consists of those commitments and four blinding elements. Verification is
//! one equation between 2 x 2 matrices over the target group, built with the
//! tensor pairing `F((x1, x2), (y1, y2))_kl = e(x_k, y_l)`:
//!
//! ```text
//!   sum_j F(i1(A_j), d_j) + sum_i F(c_i, i2(B_i)) + sum_ij gamma_ij F(c_i, d_j)
//!     = iT(t) + F(u1, pi1) + F(u2, pi2) + F(theta1, v1) + F(theta2, v2)
//! ```
//!
//! The checkers compute exactly this equation, so their verdict is a pure
//! function of (reference structure, proof, equation). Creation is
//! randomized; per the self-check discipline, a just-created proof is checked
//! at once, and only a proof that passed is returned — a failure signals an
//! internal encoding fault, never an input fault.

use crate::equation::{ayxb_model, xbxb_t_model, Equation, EquationModel};
use crate::group::{
    fr_rand, g1_add, g1_add_of, g1_mul, g1_mul_of, g1_neg, g1_neg_of, g1_rand, g1_zero,
    g1_zero_of, g2_add, g2_add_of, g2_mul, g2_mul_of, g2_neg, g2_neg_of, g2_rand, g2_zero,
    g2_zero_of, gt_add, gt_add_of, gt_eq, gt_mul, gt_mul_of, gt_zero, gt_zero_of, pairing,
    pairing_of, Rng, Scalar, G1, G2, Gt,
};
use crate::Error;
use vstd::prelude::*;

verus! {

/// The forms of equation the framework distinguishes; this crate creates and
/// checks proofs for pairing-product equations only, and a checker rejects a
/// proof tagged with any other form.
#[derive(Clone, Copy, Debug, PartialEq, Eq, Structural)]
pub enum EquType {
    PairingProduct,
    MultiScalarG1,
    MultiScalarG2,
    Quadratic,
}

/// An element of B1 = G1 x G1.
pub struct Com1 {
    pub a: G1,
    pub b: G1,
}

/// An element of B2 = G2 x G2.
pub struct Com2 {
    pub a: G2,
    pub b: G2,
}

/// A 2 x 2 matrix over the target group.
pub struct GtMat {
    pub m11: Gt,
    pub m12: Gt,
    pub m21: Gt,
    pub m22: Gt,
}

impl Clone for Com1 {
    fn clone(&self) -> (r: Self)
        ensures
            r == *self,
    {
        Com1 { a: self.a.clone(), b: self.b.clone() }
    }
}

impl Clone for Com2 {
    fn clone(&self) -> (r: Self)
        ensures
            r == *self,
    {
        Com2 { a: self.a.clone(), b: self.b.clone() }
    }
}

/// The common reference structure shared by every proof call: the fixed group
/// generators and the two commitment-basis pairs in each doubled group. A
/// proof is checked against the same structure it was created under; any
/// other structure must make the check fail, never silently pass.
pub struct Crs {
    pub g1_gen: G1,
    pub g2_gen: G2,
    pub gt_gen: Gt,
    pub u1: Com1,
    pub u2: Com1,
    pub v1: Com2,
    pub v2: Com2,
}

impl Clone for Crs {
    fn clone(&self) -> (r: Self)
        ensures
            r == *self,
    {
        Crs {
            g1_gen: self.g1_gen.clone(),
            g2_gen: self.g2_gen.clone(),
            gt_gen: self.gt_gen.clone(),
            u1: self.u1.clone(),
            u2: self.u2.clone(),
            v1: self.v1.clone(),
            v2: self.v2.clone(),
        }
    }
}

impl Crs {
    /// Draw a fresh reference structure in the binding mode: each second
    /// basis element is a hidden multiple of the first, so commitments
    /// determine their witnesses. Trusted-setup sampling itself carries no
    /// contract; everything above only requires that one structure be shared.
    pub fn rand(rng: &mut Rng) -> Crs {
        let g1_gen = g1_rand(rng);
        let g2_gen = g2_rand(rng);
        let gt_gen = pairing(&g1_gen, &g2_gen);
        let p = g1_rand(rng);
        let a1 = fr_rand(rng);
        let t1 = fr_rand(rng);
        let u1 = Com1 { a: p.clone(), b: g1_mul(&p, &a1) };
        let u2 = Com1 { a: g1_mul(&u1.a, &t1), b: g1_mul(&u1.b, &t1) };
        let q = g2_rand(rng);
        let a2 = fr_rand(rng);
        let t2 = fr_rand(rng);
        let v1 = Com2 { a: q.clone(), b: g2_mul(&q, &a2) };
        let v2 = Com2 { a: g2_mul(&v1.a, &t2), b: g2_mul(&v1.b, &t2) };
        Crs { g1_gen, g2_gen, gt_gen, u1, u2, v1, v2 }
    }
}

/// A commit-and-prove bundle for one equation: the witness commitments, the
/// four blinding elements, and the equation-form tag.
pub struct CProof {
    pub equ_type: EquType,
    pub x_coms: Vec<Com1>,
    pub y_coms: Vec<Com2>,
    pub pi1: Com2,
    pub pi2: Com2,
    pub theta1: Com1,
    pub theta2: Com1,
}

impl Clone for CProof {
    fn clone(&self) -> (r: Self)
        ensures
            r.equ_type == self.equ_type,
            r.x_coms@ == self.x_coms@,
            r.y_coms@ == self.y_coms@,
            r.pi1 == self.pi1,
            r.pi2 == self.pi2,
            r.theta1 == self.theta1,
            r.theta2 == self.theta2,
    {
        CProof {
            equ_type: self.equ_type,
            x_coms: clone_com1_vec(&self.x_coms),
            y_coms: clone_com2_vec(&self.y_coms),
            pi1: self.pi1.clone(),
            pi2: self.pi2.clone(),
            theta1: self.theta1.clone(),
            theta2: self.theta2.clone(),
        }
    }
}

pub open spec fn com1_add_s(x: Com1, y: Com1) -> Com1 {
    Com1 { a: g1_add_of(x.a, y.a), b: g1_add_of(x.b, y.b) }
}

pub open spec fn com1_mul_s(x: Com1, k: Scalar) -> Com1 {
    Com1 { a: g1_mul_of(x.a, k), b: g1_mul_of(x.b, k) }
}

pub open spec fn com2_add_s(x: Com2, y: Com2) -> Com2 {
    Com2 { a: g2_add_of(x.a, y.a), b: g2_add_of(x.b, y.b) }
}

pub open spec fn com2_mul_s(x: Com2, k: Scalar) -> Com2 {
    Com2 { a: g2_mul_of(x.a, k), b: g2_mul_of(x.b, k) }
}

pub open spec fn com2_neg_s(x: Com2) -> Com2 {
    Com2 { a: g2_neg_of(x.a), b: g2_neg_of(x.b) }
}

/// The inclusion G1 -> B1, `x |-> (0, x)`.
pub open spec fn iota1(x: G1) -> Com1 {
    Com1 { a: g1_zero_of(()), b: x }
}

/// The inclusion G2 -> B2, `y |-> (0, y)`.
pub open spec fn iota2(y: G2) -> Com2 {
    Com2 { a: g2_zero_of(()), b: y }
}

/// The inclusion Gt -> B T, placing the target in the lower-right entry.
pub open spec fn iota_t(t: Gt) -> GtMat {
    GtMat { m11: gt_zero_of(()), m12: gt_zero_of(()), m21: gt_zero_of(()), m22: t }
}

/// The tensor pairing F: B1 x B2 -> B T.
pub open spec fn fpair_s(x: Com1, y: Com2) -> GtMat {
    GtMat {
        m11: pairing_of(x.a, y.a),
        m12: pairing_of(x.a, y.b),
        m21: pairing_of(x.b, y.a),
        m22: pairing_of(x.b, y.b),
    }
}

pub open spec fn mat_add_s(x: GtMat, y: GtMat) -> GtMat {
    GtMat {
        m11: gt_add_of(x.m11, y.m11),
        m12: gt_add_of(x.m12, y.m12),
        m21: gt_add_of(x.m21, y.m21),
        m22: gt_add_of(x.m22, y.m22),
    }
}

pub open spec fn mat_scale_s(x: GtMat, k: Scalar) -> GtMat {
    GtMat {
        m11: gt_mul_of(x.m11, k),
        m12: gt_mul_of(x.m12, k),
        m21: gt_mul_of(x.m21, k),
        m22: gt_mul_of(x.m22, k),
    }
}

pub open spec fn mat_zero() -> GtMat {
    GtMat {
        m11: gt_zero_of(()),
        m12: gt_zero_of(()),
        m21: gt_zero_of(()),
        m22: gt_zero_of(()),
    }
}

/// `sum_j F(i1(a[j]), d[j])`, folded left to right.
pub open spec fn fsum_ay(a: Seq<G1>, d: Seq<Com2>) -> GtMat
    recommends
        a.len() == d.len(),
    decreases a.len(),
{
    if a.len() == 0 {
        mat_zero()
    } else {
        mat_add_s(fsum_ay(a.drop_last(), d.drop_last()), fpair_s(iota1(a.last()), d.last()))
    }
}

/// `sum_i F(c[i], i2(b[i]))`, folded left to right.
pub open spec fn fsum_xb(c: Seq<Com1>, b: Seq<G2>) -> GtMat
    recommends
        c.len() == b.len(),
    decreases c.len(),
{
    if c.len() == 0 {
        mat_zero()
    } else {
        mat_add_s(fsum_xb(c.drop_last(), b.drop_last()), fpair_s(c.last(), iota2(b.last())))
    }
}

/// One row of the exponent-matrix sum: `sum_j row[j] * F(ci, d[j])`.
pub open spec fn grow_s(ci: Com1, d: Seq<Com2>, row: Seq<Scalar>) -> GtMat
    recommends
        d.len() == row.len(),
    decreases d.len(),
{
    if d.len() == 0 {
        mat_zero()
    } else {
        mat_add_s(
            grow_s(ci, d.drop_last(), row.drop_last()),
            mat_scale_s(fpair_s(ci, d.last()), row.last()),
        )
    }
}

/// The full exponent-matrix sum `sum_ij gamma[i][j] * F(c[i], d[j])`.
pub open spec fn gsum_s(c: Seq<Com1>, d: Seq<Com2>, gamma: Seq<Seq<Scalar>>) -> GtMat
    recommends
        c.len() == gamma.len(),
    decreases c.len(),
{
    if c.len() == 0 {
        mat_zero()
    } else {
        mat_add_s(gsum_s(c.drop_last(), d, gamma.drop_last()), grow_s(c.last(), d, gamma.last()))
    }
}

/// The committed left-hand side of the verification equation.
pub open spec fn cproof_lhs(p: CProof, e: EquationModel) -> GtMat {
    mat_add_s(
        mat_add_s(fsum_ay(e.a, p.y_coms@), fsum_xb(p.x_coms@, e.b)),
        gsum_s(p.x_coms@, p.y_coms@, e.gamma),
    )
}

/// The blinded right-hand side of the verification equation.
pub open spec fn cproof_rhs(crs: Crs, p: CProof, t: Gt) -> GtMat {
    mat_add_s(
        iota_t(t),
        mat_add_s(
            mat_add_s(fpair_s(crs.u1, p.pi1), fpair_s(crs.u2, p.pi2)),
            mat_add_s(fpair_s(p.theta1, crs.v1), fpair_s(p.theta2, crs.v2)),
        ),
    )
}

/// Whether the bundle verifies against the equation under the given reference
/// structure: the commitments fit the equation's dimensions and the matrix
/// equation balances.
pub open spec fn cproof_verifies(crs: Crs, p: CProof, e: EquationModel) -> bool {
    &&& p.x_coms@.len() == e.b.len()
    &&& p.y_coms@.len() == e.a.len()
    &&& cproof_lhs(p, e) == cproof_rhs(crs, p, e.t)
}

/// What a checker accepts: a bundle tagged as a pairing-product proof that
/// verifies against the equation.
pub open spec fn cproof_accepts(crs: Crs, p: CProof, e: EquationModel) -> bool {
    &&& p.equ_type == EquType::PairingProduct
    &&& cproof_verifies(crs, p, e)
}

fn com1_add(x: &Com1, y: &Com1) -> (r: Com1)
    ensures
        r == com1_add_s(*x, *y),
{
    Com1 { a: g1_add(&x.a, &y.a), b: g1_add(&x.b, &y.b) }
}

fn com1_mul(x: &Com1, k: &Scalar) -> (r: Com1)
    ensures
        r == com1_mul_s(*x, *k),
{
    Com1 { a: g1_mul(&x.a, k), b: g1_mul(&x.b, k) }
}

fn com2_add(x: &Com2, y: &Com2) -> (r: Com2)
    ensures
        r == com2_add_s(*x, *y),
{
    Com2 { a: g2_add(&x.a, &y.a), b: g2_add(&x.b, &y.b) }
}

fn com2_mul(x: &Com2, k: &Scalar) -> (r: Com2)
    ensures
        r == com2_mul_s(*x, *k),
{
    Com2 { a: g2_mul(&x.a, k), b: g2_mul(&x.b, k) }
}

fn com2_neg(x: &Com2) -> (r: Com2)
    ensures
        r == com2_neg_s(*x),
{
    Com2 { a: g2_neg(&x.a), b: g2_neg(&x.b) }
}

fn iota1_e(x: &G1) -> (r: Com1)
    ensures
        r == iota1(*x),
{
    Com1 { a: g1_zero(), b: x.clone() }
}

fn iota2_e(y: &G2) -> (r: Com2)
    ensures
        r == iota2(*y),
{
    Com2 { a: g2_zero(), b: y.clone() }
}

fn iota_t_e(t: &Gt) -> (r: GtMat)
    ensures
        r == iota_t(*t),
{
    GtMat { m11: gt_zero(), m12: gt_zero(), m21: gt_zero(), m22: t.clone() }
}

fn fpair(x: &Com1, y: &Com2) -> (r: GtMat)
    ensures
        r == fpair_s(*x, *y),
{
    GtMat {
        m11: pairing(&x.a, &y.a),
        m12: pairing(&x.a, &y.b),
        m21: pairing(&x.b, &y.a),
        m22: pairing(&x.b, &y.b),
    }
}

fn mat_add(x: &GtMat, y: &GtMat) -> (r: GtMat)
    ensures
        r == mat_add_s(*x, *y),
{
    GtMat {
        m11: gt_add(&x.m11, &y.m11),
        m12: gt_add(&x.m12, &y.m12),
        m21: gt_add(&x.m21, &y.m21),
        m22: gt_add(&x.m22, &y.m22),
    }
}

fn mat_scale(x: &GtMat, k: &Scalar) -> (r: GtMat)
    ensures
        r == mat_scale_s(*x, *k),
{
    GtMat {
        m11: gt_mul(&x.m11, k),
        m12: gt_mul(&x.m12, k),
        m21: gt_mul(&x.m21, k),
        m22: gt_mul(&x.m22, k),
    }
}

fn mat_zero_e() -> (r: GtMat)
    ensures
        r == mat_zero(),
{
    GtMat { m11: gt_zero(), m12: gt_zero(), m21: gt_zero(), m22: gt_zero() }
}

fn mat_eq(x: &GtMat, y: &GtMat) -> (r: bool)
    ensures
        r == (x == y),
{
    gt_eq(&x.m11, &y.m11) && gt_eq(&x.m12, &y.m12) && gt_eq(&x.m21, &y.m21) && gt_eq(
        &x.m22,
        &y.m22,
    )
}

/// Duplicate a vector of B1 elements, element by element.
pub fn clone_com1_vec(v: &Vec<Com1>) -> (r: Vec<Com1>)
    ensures
        r@ == v@,
{
    let n = v.len();
    let mut r: Vec<Com1> = Vec::new();
    let mut i: usize = 0;
    while i < n
        invariant
            n == v@.len(),
            i <= n,
            r@ =~= v@.take(i as int),
        decreases n - i,
    {
        r.push(v[i].clone());
        i = i + 1;
    }
    proof {
        assert(v@.take(n as int) =~= v@);
    }
    r
}

/// Duplicate a vector of B2 elements, element by element.
pub fn clone_com2_vec(v: &Vec<Com2>) -> (r: Vec<Com2>)
    ensures
        r@ == v@,
{
    let n = v.len();
    let mut r: Vec<Com2> = Vec::new();
    let mut i: usize = 0;
    while i < n
        invariant
            n == v@.len(),
            i <= n,
            r@ =~= v@.take(i as int),
        decreases n - i,
    {
        r.push(v[i].clone());
        i = i + 1;
    }
    proof {
        assert(v@.take(n as int) =~= v@);
    }
    r
}

/// Duplicate a vector of proof bundles; each copy verifies whatever its
/// original verifies, since the verification predicate reads only what the
/// clone preserves.
pub fn clone_cproof_vec(v: &Vec<CProof>) -> (r: Vec<CProof>)
    ensures
        r@.len() == v@.len(),
        forall|i: int|
            0 <= i < v@.len() ==> cproof_same(#[trigger] r@[i], v@[i]),
{
    let n = v.len();
    let mut r: Vec<CProof> = Vec::new();
    let mut i: usize = 0;
    while i < n
        invariant
            n == v@.len(),
            i <= n,
            r@.len() == i,
            forall|k: int| 0 <= k < i ==> cproof_same(#[trigger] r@[k], v@[k]),
        decreases n - i,
    {
        r.push(v[i].clone());
        i = i + 1;
    }
    r
}

/// Everything the verification predicate reads of a bundle.
pub open spec fn cproof_same(p: CProof, q: CProof) -> bool {
    &&& p.equ_type == q.equ_type
    &&& p.x_coms@ == q.x_coms@
    &&& p.y_coms@ == q.y_coms@
    &&& p.pi1 == q.pi1
    &&& p.pi2 == q.pi2
    &&& p.theta1 == q.theta1
    &&& p.theta2 == q.theta2
}

/// Two bundles alike in everything the predicate reads verify the same
/// equations.
pub proof fn lemma_same_verifies(crs: Crs, p: CProof, q: CProof, e: EquationModel)
    requires
        cproof_same(p, q),
    ensures
        cproof_accepts(crs, p, e) == cproof_accepts(crs, q, e),
{
}

/// Evaluate the verification equation: a pure function of the reference
/// structure, the bundle and the equation, so repeated checks agree.
pub fn check_equation(crs: &Crs, p: &CProof, e: &Equation) -> (r: bool)
    requires
        e@.wf(),
    ensures
        r == cproof_verifies(*crs, *p, e@),
{
    if p.x_coms.len() != e.b_consts.len() || p.y_coms.len() != e.a_consts.len() {
        return false;
    }

    let n_ay = e.a_consts.len();
    let mut ay = mat_zero_e();
    let mut i: usize = 0;
    while i < n_ay
        invariant
            n_ay == e@.a.len(),
            e@.a.len() == p.y_coms@.len(),
            i <= n_ay,
            ay == fsum_ay(e@.a.take(i as int), p.y_coms@.take(i as int)),
        decreases n_ay - i,
    {
        proof {
            assert(e@.a.take(i + 1).drop_last() =~= e@.a.take(i as int));
            assert(p.y_coms@.take(i + 1).drop_last() =~= p.y_coms@.take(i as int));
        }
        ay = mat_add(&ay, &fpair(&iota1_e(&e.a_consts[i]), &p.y_coms[i]));
        i = i + 1;
    }
    proof {
        assert(e@.a.take(n_ay as int) =~= e@.a);
        assert(p.y_coms@.take(n_ay as int) =~= p.y_coms@);
    }

    let n_xb = e.b_consts.len();
    let mut xb = mat_zero_e();
    let mut j: usize = 0;
    while j < n_xb
        invariant
            n_xb == e@.b.len(),
            e@.b.len() == p.x_coms@.len(),
            j <= n_xb,
            xb == fsum_xb(p.x_coms@.take(j as int), e@.b.take(j as int)),
        decreases n_xb - j,
    {
        proof {
            assert(e@.b.take(j + 1).drop_last() =~= e@.b.take(j as int));
            assert(p.x_coms@.take(j + 1).drop_last() =~= p.x_coms@.take(j as int));
        }
        xb = mat_add(&xb, &fpair(&p.x_coms[j], &iota2_e(&e.b_consts[j])));
        j = j + 1;
    }
    proof {
        assert(e@.b.take(n_xb as int) =~= e@.b);
        assert(p.x_coms@.take(n_xb as int) =~= p.x_coms@);
    }

    let mut gs = mat_zero_e();
    let mut k: usize = 0;
    while k < n_xb
        invariant
            e@.wf(),
            n_xb == e@.b.len(),
            e@.b.len() == p.x_coms@.len(),
            n_ay == e@.a.len(),
            e@.a.len() == p.y_coms@.len(),
            k <= n_xb,
            gs == gsum_s(p.x_coms@.take(k as int), p.y_coms@, e@.gamma.take(k as int)),
        decreases n_xb - k,
    {
        let mut row = mat_zero_e();
        let mut l: usize = 0;
        while l < n_ay
            invariant
                e@.wf(),
                k < n_xb,
                n_xb == e@.b.len(),
                e@.b.len() == p.x_coms@.len(),
                n_ay == e@.a.len(),
                e@.a.len() == p.y_coms@.len(),
                l <= n_ay,
                row == grow_s(
                    p.x_coms@[k as int],
                    p.y_coms@.take(l as int),
                    e@.gamma[k as int].take(l as int),
                ),
            decreases n_ay - l,
        {
            proof {
                assert(p.y_coms@.take(l + 1).drop_last() =~= p.y_coms@.take(l as int));
                assert(e@.gamma[k as int].take(l + 1).drop_last() =~= e@.gamma[
                    k as int
                ].take(l as int));
            }
            row = mat_add(&row, &mat_scale(&fpair(&p.x_coms[k], &p.y_coms[l]), &e.gamma[k][l]));
            l = l + 1;
        }
        proof {
            assert(p.y_coms@.take(n_ay as int) =~= p.y_coms@);
            assert(e@.gamma[k as int].take(n_ay as int) =~= e@.gamma[k as int]);
            assert(p.x_coms@.take(k + 1).drop_last() =~= p.x_coms@.take(k as int));
            assert(e@.gamma.take(k + 1).drop_last() =~= e@.gamma.take(k as int));
            assert(p.x_coms@.take(k + 1).last() == p.x_coms@[k as int]);
        }
        gs = mat_add(&gs, &row);
        k = k + 1;
    }
    proof {
        assert(p.x_coms@.take(n_xb as int) =~= p.x_coms@);
        assert(e@.gamma.take(n_xb as int) =~= e@.gamma);
    }

    let lhs = mat_add(&mat_add(&ay, &xb), &gs);
    let rhs = rhs_mat(crs, p, &e.target);
    mat_eq(&lhs, &rhs)
}

/// Assemble the blinded right-hand side of the verification equation.
fn rhs_mat(crs: &Crs, p: &CProof, t: &Gt) -> (r: GtMat)
    ensures
        r == cproof_rhs(*crs, *p, *t),
{
    mat_add(
        &iota_t_e(t),
        &mat_add(
            &mat_add(&fpair(&crs.u1, &p.pi1), &fpair(&crs.u2, &p.pi2)),
            &mat_add(&fpair(&p.theta1, &crs.v1), &fpair(&p.theta2, &crs.v2)),
        ),
    )
}

/// Commit to the witnesses and build the blinding elements for an equation
/// with a zero exponent matrix (the only form the scheme proves). Randomized:
/// nothing is promised of the outcome; the callers check the result at once.
fn commit_and_prove(rng: &mut Rng, crs: &Crs, e: &Equation, x: &Vec<G1>, y: &Vec<G2>) -> (p: CProof)
    requires
        x@.len() == e@.b.len(),
        y@.len() == e@.a.len(),
{
    let m = x.len();
    let n = y.len();

    let mut rs: Vec<(Scalar, Scalar)> = Vec::new();
    let mut x_coms: Vec<Com1> = Vec::new();
    let mut i: usize = 0;
    while i < m
        invariant
            m == x@.len(),
            i <= m,
            rs@.len() == i,
            x_coms@.len() == i,
        decreases m - i,
    {
        let r1 = fr_rand(rng);
        let r2 = fr_rand(rng);
        let com = com1_add(
            &iota1_e(&x[i]),
            &com1_add(&com1_mul(&crs.u1, &r1), &com1_mul(&crs.u2, &r2)),
        );
        x_coms.push(com);
        rs.push((r1, r2));
        i = i + 1;
    }

    let mut ss: Vec<(Scalar, Scalar)> = Vec::new();
    let mut y_coms: Vec<Com2> = Vec::new();
    let mut j: usize = 0;
    while j < n
        invariant
            n == y@.len(),
            j <= n,
            ss@.len() == j,
            y_coms@.len() == j,
        decreases n - j,
    {
        let s1 = fr_rand(rng);
        let s2 = fr_rand(rng);
        let com = com2_add(
            &iota2_e(&y[j]),
            &com2_add(&com2_mul(&crs.v1, &s1), &com2_mul(&crs.v2, &s2)),
        );
        y_coms.push(com);
        ss.push((s1, s2));
        j = j + 1;
    }

    let t11 = fr_rand(rng);
    let t12 = fr_rand(rng);
    let t21 = fr_rand(rng);
    let t22 = fr_rand(rng);

    // pi_k = sum_i R_ik * i2(B_i) - T_1k * v1 - T_2k * v2
    let mut pi1 = com2_add(&com2_neg(&com2_mul(&crs.v1, &t11)), &com2_neg(&com2_mul(&crs.v2, &t21)));
    let mut pi2 = com2_add(&com2_neg(&com2_mul(&crs.v1, &t12)), &com2_neg(&com2_mul(&crs.v2, &t22)));
    let mut k: usize = 0;
    while k < m
        invariant
            m == x@.len(),
            x@.len() == e.b_consts@.len(),
            rs@.len() == m,
            k <= m,
        decreases m - k,
    {
        pi1 = com2_add(&pi1, &com2_mul(&iota2_e(&e.b_consts[k]), &rs[k].0));
        pi2 = com2_add(&pi2, &com2_mul(&iota2_e(&e.b_consts[k]), &rs[k].1));
        k = k + 1;
    }

    // theta_k = sum_j S_jk * i1(A_j) + T_k1 * u1 + T_k2 * u2
    let mut theta1 = com1_add(&com1_mul(&crs.u1, &t11), &com1_mul(&crs.u2, &t12));
    let mut theta2 = com1_add(&com1_mul(&crs.u1, &t21), &com1_mul(&crs.u2, &t22));
    let mut l: usize = 0;
    while l < n
        invariant
            n == y@.len(),
            y@.len() == e.a_consts@.len(),
            ss@.len() == n,
            l <= n,
        decreases n - l,
    {
        theta1 = com1_add(&theta1, &com1_mul(&iota1_e(&e.a_consts[l]), &ss[l].0));
        theta2 = com1_add(&theta2, &com1_mul(&iota1_e(&e.a_consts[l]), &ss[l].1));
        l = l + 1;
    }

    CProof { equ_type: EquType::PairingProduct, x_coms, y_coms, pi1, pi2, theta1, theta2 }
}

/// Create a proof for `e(a, Y) + e(X, b) = 0` with witnesses `Y = [y]`,
/// `X = [0, x]`. The freshly built bundle is self-checked before it is
/// returned, so success carries verification; a failure can only mean an
/// internal encoding fault, never an input fault.
pub fn create_proof_ayxb(
    rng: &mut Rng,
    crs: &Crs,
    a: &G1,
    y: &G2,
    x: &G1,
    b: &G2,
) -> (res: Result<CProof, Error>)
    ensures
        res matches Ok(p) ==> cproof_accepts(*crs, p, ayxb_model(*a, *b)),
        res matches Err(e) ==> e == Error::InternalEncodingFault,
{
    let e = Equation::ayxb(a, b);
    let xs = vec![g1_zero(), x.clone()];
    let ys = vec![y.clone()];
    proof {
        assert(xs@.len() == e@.b.len());
        assert(ys@.len() == e@.a.len());
    }
    let p = commit_and_prove(rng, crs, &e, &xs, &ys);
    if p.equ_type == EquType::PairingProduct && check_equation(crs, &p, &e) {
        Ok(p)
    } else {
        Err(Error::InternalEncodingFault)
    }
}

/// Check a proof for `e(a, Y) + e(X, b) = 0`: reconstruct the equation and
/// evaluate the verification equation; a bundle tagged as any other equation
/// form is rejected.
pub fn check_proof_ayxb(crs: &Crs, p: &CProof, a: &G1, b: &G2) -> (r: bool)
    ensures
        r == cproof_accepts(*crs, *p, ayxb_model(*a, *b)),
{
    if !(p.equ_type == EquType::PairingProduct) {
        return false;
    }
    let e = Equation::ayxb(a, b);
    check_equation(crs, p, &e)
}

/// Create a proof for `e(X1, b1) + e(X2, b2) = t` with witnesses
/// `X = [0, x1, x2]`, `Y = [0]`; self-checked like
/// [`create_proof_ayxb`].
pub fn create_proof_xbxb_t(
    rng: &mut Rng,
    crs: &Crs,
    x1: &G1,
    b1: &G2,
    x2: &G1,
    b2: &G2,
    t: &Gt,
) -> (res: Result<CProof, Error>)
    ensures
        res matches Ok(p) ==> cproof_accepts(*crs, p, xbxb_t_model(*b1, *b2, *t)),
        res matches Err(e) ==> e == Error::InternalEncodingFault,
{
    let e = Equation::xbxb_t(b1, b2, t);
    let xs = vec![g1_zero(), x1.clone(), x2.clone()];
    let ys = vec![g2_zero()];
    proof {
        assert(xs@.len() == e@.b.len());
        assert(ys@.len() == e@.a.len());
    }
    let p = commit_and_prove(rng, crs, &e, &xs, &ys);
    if p.equ_type == EquType::PairingProduct && check_equation(crs, &p, &e) {
        Ok(p)
    } else {
        Err(Error::InternalEncodingFault)
    }
}

/// Check a proof for `e(X1, b1) + e(X2, b2) = t`, the symmetric verifier to
/// [`check_proof_ayxb`].
pub fn check_proof_xbxb_t(crs: &Crs, p: &CProof, b1: &G2, b2: &G2, t: &Gt) -> (r: bool)
    ensures
        r == cproof_accepts(*crs, *p, xbxb_t_model(*b1, *b2, *t)),
{
    if !(p.equ_type == EquType::PairingProduct) {
        return false;
    }
    let e = Equation::xbxb_t(b1, b2, t);
    check_equation(crs, p, &e)
}

} // verus!
