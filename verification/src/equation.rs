//! Pairing-product equations.
//!
//! Every relation the scheme proves or checks is one pairing-product equation
//!
//! ```text
//!   sum_i e(A_i, Y_i) + sum_i e(X_i, B_i) + sum_ij e(X_i, Y_j) * gamma_ij = T
//! ```
//!
//! over constants `A` (G1), `B` (G2), an exponent matrix `gamma` and a target
//! `T`, with witnesses `X` (G1) and `Y` (G2) supplied per call. The scheme
//! only ever instantiates two shapes of this equation, so both are built by
//! one audited encoder here. The witness-hiding commit-and-prove system for
//! these equations lives in [`crate::proof_system`]; this module fixes the
//! statements and can also evaluate an equation directly when the witnesses
//! are in hand.

use crate::group::{
    fr_zero, fr_zero_of, g1_zero, g1_zero_of, g2_zero, g2_zero_of, gt_add, gt_add_of, gt_eq,
    gt_mul, gt_mul_of, gt_pairing_sum, gt_zero, gt_zero_of, pairing, pairing_of, G1, G2, Gt,
    Scalar,
};
use vstd::prelude::*;

verus! {

/// The mathematical model of an [`Equation`].
pub ghost struct EquationModel {
    pub a: Seq<G1>,
    pub b: Seq<G2>,
    pub gamma: Seq<Seq<Scalar>>,
    pub t: Gt,
}

/// The exponent sum `sum_j e(xi, ys[j]) * row[j]` for one witness `xi`.
pub open spec fn gt_gamma_row(xi: G1, ys: Seq<G2>, row: Seq<Scalar>) -> Gt
    recommends
        ys.len() == row.len(),
    decreases ys.len(),
{
    if ys.len() == 0 {
        gt_zero_of(())
    } else {
        gt_add_of(
            gt_gamma_row(xi, ys.drop_last(), row.drop_last()),
            gt_mul_of(pairing_of(xi, ys.last()), row.last()),
        )
    }
}

/// The full exponent-matrix sum `sum_ij e(xs[i], ys[j]) * gamma[i][j]`.
pub open spec fn gt_gamma_sum(xs: Seq<G1>, ys: Seq<G2>, gamma: Seq<Seq<Scalar>>) -> Gt
    recommends
        xs.len() == gamma.len(),
    decreases xs.len(),
{
    if xs.len() == 0 {
        gt_zero_of(())
    } else {
        gt_add_of(
            gt_gamma_sum(xs.drop_last(), ys, gamma.drop_last()),
            gt_gamma_row(xs.last(), ys, gamma.last()),
        )
    }
}

impl EquationModel {
    /// The exponent matrix pairs each X witness with each Y witness.
    pub open spec fn wf(self) -> bool {
        &&& self.gamma.len() == self.b.len()
        &&& forall|i: int|
            0 <= i < self.gamma.len() ==> (#[trigger] self.gamma[i]).len() == self.a.len()
    }

    /// The left-hand side of the equation under witnesses `x`, `y`.
    pub open spec fn lhs(self, x: Seq<G1>, y: Seq<G2>) -> Gt {
        gt_add_of(
            gt_add_of(gt_pairing_sum(self.a, y), gt_pairing_sum(x, self.b)),
            gt_gamma_sum(x, y, self.gamma),
        )
    }

    /// Whether witnesses `x`, `y` satisfy the equation.
    pub open spec fn holds_for(self, x: Seq<G1>, y: Seq<G2>) -> bool {
        self.lhs(x, y) == self.t
    }
}

/// One pairing-product equation: constants, exponent matrix and target.
pub struct Equation {
    pub a_consts: Vec<G1>,
    pub b_consts: Vec<G2>,
    pub gamma: Vec<Vec<Scalar>>,
    pub target: Gt,
}

impl View for Equation {
    type V = EquationModel;

    open spec fn view(&self) -> EquationModel {
        EquationModel {
            a: self.a_consts@,
            b: self.b_consts@,
            gamma: self.gamma@.map_values(|row: Vec<Scalar>| row@),
            t: self.target,
        }
    }
}

/// The model of the shape `e(a, Y) + e(X, b) = 0`: one A-constant, B-constants
/// `[0, b]`, witnesses `X = [0, x]`, `Y = [y]`, zero exponents, zero target.
pub open spec fn ayxb_model(a: G1, b: G2) -> EquationModel {
    EquationModel {
        a: seq![a],
        b: seq![g2_zero_of(()), b],
        gamma: seq![seq![fr_zero_of(())], seq![fr_zero_of(())]],
        t: gt_zero_of(()),
    }
}

/// The model of the shape `e(X1, b1) + e(X2, b2) = t`: B-constants
/// `[0, b1, b2]`, witnesses `X = [0, x1, x2]`, `Y = [0]`, zero exponents.
pub open spec fn xbxb_t_model(b1: G2, b2: G2, t: Gt) -> EquationModel {
    EquationModel {
        a: seq![g1_zero_of(())],
        b: seq![g2_zero_of(()), b1, b2],
        gamma: seq![seq![fr_zero_of(())], seq![fr_zero_of(())], seq![fr_zero_of(())]],
        t,
    }
}

impl Equation {
    /// Encode the relation `e(a, Y) + e(X, b) = 0`.
    pub fn ayxb(a: &G1, b: &G2) -> (e: Equation)
        ensures
            e@ == ayxb_model(*a, *b),
            e@.wf(),
    {
        let e = Equation {
            a_consts: vec![a.clone()],
            b_consts: vec![g2_zero(), b.clone()],
            gamma: vec![vec![fr_zero()], vec![fr_zero()]],
            target: gt_zero(),
        };
        proof {
            assert(e@.a =~= ayxb_model(*a, *b).a);
            assert(e@.b =~= ayxb_model(*a, *b).b);
            assert(e@.gamma =~~= ayxb_model(*a, *b).gamma);
        }
        e
    }

    /// Encode the relation `e(X1, b1) + e(X2, b2) = t`.
    pub fn xbxb_t(b1: &G2, b2: &G2, t: &Gt) -> (e: Equation)
        ensures
            e@ == xbxb_t_model(*b1, *b2, *t),
            e@.wf(),
    {
        let e = Equation {
            a_consts: vec![g1_zero()],
            b_consts: vec![g2_zero(), b1.clone(), b2.clone()],
            gamma: vec![vec![fr_zero()], vec![fr_zero()], vec![fr_zero()]],
            target: t.clone(),
        };
        proof {
            assert(e@.a =~= xbxb_t_model(*b1, *b2, *t).a);
            assert(e@.b =~= xbxb_t_model(*b1, *b2, *t).b);
            assert(e@.gamma =~~= xbxb_t_model(*b1, *b2, *t).gamma);
        }
        e
    }

    /// Evaluate the equation directly on witnesses in the clear: compute the
    /// left-hand side and compare it to the target. Verification of an
    /// equation is a pure function of its inputs, so repeated calls on equal
    /// arguments return equal results.
    pub fn is_satisfied_by(&self, x: &Vec<G1>, y: &Vec<G2>) -> (r: bool)
        requires
            self@.wf(),
            x@.len() == self@.b.len(),
            y@.len() == self@.a.len(),
        ensures
            r == self@.holds_for(x@, y@),
    {
        let ay_len = self.a_consts.len();
        let mut ay_sum = gt_zero();
        let mut i: usize = 0;
        while i < ay_len
            invariant
                ay_len == self@.a.len(),
                self@.a.len() == y@.len(),
                i <= ay_len,
                ay_sum == gt_pairing_sum(self@.a.take(i as int), y@.take(i as int)),
            decreases ay_len - i,
        {
            proof {
                assert(self@.a.take(i + 1).drop_last() =~= self@.a.take(i as int));
                assert(y@.take(i + 1).drop_last() =~= y@.take(i as int));
            }
            ay_sum = gt_add(&ay_sum, &pairing(&self.a_consts[i], &y[i]));
            i = i + 1;
        }
        proof {
            assert(self@.a.take(ay_len as int) =~= self@.a);
            assert(y@.take(ay_len as int) =~= y@);
        }

        let xb_len = self.b_consts.len();
        let mut xb_sum = gt_zero();
        let mut j: usize = 0;
        while j < xb_len
            invariant
                xb_len == self@.b.len(),
                self@.b.len() == x@.len(),
                j <= xb_len,
                xb_sum == gt_pairing_sum(x@.take(j as int), self@.b.take(j as int)),
            decreases xb_len - j,
        {
            proof {
                assert(x@.take(j + 1).drop_last() =~= x@.take(j as int));
                assert(self@.b.take(j + 1).drop_last() =~= self@.b.take(j as int));
            }
            xb_sum = gt_add(&xb_sum, &pairing(&x[j], &self.b_consts[j]));
            j = j + 1;
        }
        proof {
            assert(x@.take(xb_len as int) =~= x@);
            assert(self@.b.take(xb_len as int) =~= self@.b);
        }

        let mut gamma_sum = gt_zero();
        let mut k: usize = 0;
        while k < xb_len
            invariant
                xb_len == self@.b.len(),
                self@.wf(),
                self@.b.len() == x@.len(),
                self@.a.len() == y@.len(),
                y@.len() == self.a_consts@.len(),
                k <= xb_len,
                gamma_sum == gt_gamma_sum(x@.take(k as int), y@, self@.gamma.take(k as int)),
            decreases xb_len - k,
        {
            let row_len = self.a_consts.len();
            let mut row_sum = gt_zero();
            let mut l: usize = 0;
            while l < row_len
                invariant
                    k < xb_len,
                    xb_len == self@.b.len(),
                    self@.wf(),
                    self@.b.len() == x@.len(),
                    row_len == self@.a.len(),
                    y@.len() == self@.a.len(),
                    l <= row_len,
                    row_sum == gt_gamma_row(
                        x@[k as int],
                        y@.take(l as int),
                        self@.gamma[k as int].take(l as int),
                    ),
                decreases row_len - l,
            {
                proof {
                    assert(y@.take(l + 1).drop_last() =~= y@.take(l as int));
                    assert(self@.gamma[k as int].take(l + 1).drop_last() =~= self@.gamma[
                        k as int
                    ].take(l as int));
                }
                row_sum = gt_add(
                    &row_sum,
                    &gt_mul(&pairing(&x[k], &y[l]), &self.gamma[k][l]),
                );
                l = l + 1;
            }
            proof {
                assert(y@.take(row_len as int) =~= y@);
                assert(self@.gamma[k as int].take(row_len as int) =~= self@.gamma[k as int]);
                assert(x@.take(k + 1).drop_last() =~= x@.take(k as int));
                assert(self@.gamma.take(k + 1).drop_last() =~= self@.gamma.take(k as int));
                assert(x@.take(k + 1).last() == x@[k as int]);
            }
            gamma_sum = gt_add(&gamma_sum, &row_sum);
            k = k + 1;
        }
        proof {
            assert(x@.take(xb_len as int) =~= x@);
            assert(self@.gamma.take(xb_len as int) =~= self@.gamma);
        }

        let lhs = gt_add(&gt_add(&ay_sum, &xb_sum), &gamma_sum);
        gt_eq(&lhs, &self.target)
    }
}

/// Checking is deterministic: two evaluations of one equation on equal
/// witnesses return the same verdict, whatever that verdict is.
pub proof fn lemma_check_deterministic(
    e: EquationModel,
    x: Seq<G1>,
    y: Seq<G2>,
    r1: bool,
    r2: bool,
)
    requires
        r1 == e.holds_for(x, y),
        r2 == e.holds_for(x, y),
    ensures
        r1 == r2,
{
}

} // verus!
