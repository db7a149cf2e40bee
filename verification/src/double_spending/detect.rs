//! Double-spending detection: when one coin is spent twice, the difference of
//! the two spends' tags cancels everything but the guilty key's contribution,
//! and a flat pairing-equality search over the known public keys finds it.

use super::public_key::{incriminates, PublicKey};
use super::serial_number::SerialNumber;
use super::tag::{Tag, TagProof};
use crate::group::{
    g1_add, g1_add_of, g1_eq, g1_neg, g1_neg_of, g1_zero, g1_zero_of, g2_add, g2_add_of, g2_neg,
    g2_neg_of, gt_add, gt_eq, pairing, G1, G2,
};
use crate::params::Params;
use vstd::prelude::*;

verus! {

/// What a successful detection hands to [`PublicKey::verify_guilt`]: the tag,
/// message and nonce differences of the two spends.
pub struct DetectionProof {
    pub ax: G1,
    pub mx: G1,
    pub tx: G2,
}

/// The component differences `detect` works on, and the branch it takes:
/// `(ax, mx, hx, tx)`. When the A-difference of the tags vanishes the search
/// falls back to the B-side with the second auxiliary generator.
pub open spec fn detection_terms(
    params: Params,
    sn0: SerialNumber,
    sn1: SerialNumber,
    tag0: Tag,
    tag0_pf: TagProof,
    tag1: Tag,
    tag1_pf: TagProof,
) -> (G1, G1, G1, G2) {
    let a = g1_add_of(tag0.a, g1_neg_of(tag1.a));
    let b = g1_add_of(tag0.b, g1_neg_of(tag1.b));
    let m = g1_add_of(sn0.m, g1_neg_of(sn1.m));
    let n = g1_add_of(sn0.n, g1_neg_of(sn1.n));
    let tx = g2_add_of(tag0_pf.t_pf, g2_neg_of(tag1_pf.t_pf));
    if a == g1_zero_of(()) {
        (b, n, params.h2, tx)
    } else {
        (a, m, params.h1, tx)
    }
}

/// Search the known public keys for one that the two spends incriminate: the
/// first key satisfying `e(ax, g) = e(mx, pk) + e(hx, tx)` over the tag,
/// serial-number and nonce differences. Returns that key and the detection
/// proof, or nothing when no key matches.
pub fn detect(
    keys: &Vec<PublicKey>,
    params: &Params,
    sn0: &SerialNumber,
    sn1: &SerialNumber,
    tag0: &Tag,
    tag0_pf: &TagProof,
    tag1: &Tag,
    tag1_pf: &TagProof,
) -> (res: Option<(PublicKey, DetectionProof)>)
    ensures
        ({
            let terms = detection_terms(*params, *sn0, *sn1, *tag0, *tag0_pf, *tag1, *tag1_pf);
            &&& res matches Some((pk, dp)) ==> dp.ax == terms.0 && dp.mx == terms.1 && dp.tx
                == terms.3 && exists|i: int|
                0 <= i < keys@.len() && keys@[i] == pk && incriminates(
                    params.g,
                    pk,
                    terms.0,
                    terms.1,
                    terms.2,
                    terms.3,
                ) && (forall|j: int|
                    0 <= j < i ==> !incriminates(
                        params.g,
                        #[trigger] keys@[j],
                        terms.0,
                        terms.1,
                        terms.2,
                        terms.3,
                    ))
            &&& res is None ==> forall|i: int|
                0 <= i < keys@.len() ==> !incriminates(
                    params.g,
                    #[trigger] keys@[i],
                    terms.0,
                    terms.1,
                    terms.2,
                    terms.3,
                )
        }),
{
    let a = g1_add(&tag0.a, &g1_neg(&tag1.a));
    let b = g1_add(&tag0.b, &g1_neg(&tag1.b));
    let m = g1_add(&sn0.m, &g1_neg(&sn1.m));
    let n = g1_add(&sn0.n, &g1_neg(&sn1.n));
    let tx = g2_add(&tag0_pf.t_pf, &g2_neg(&tag1_pf.t_pf));

    let (ax, mx, hx) = if g1_eq(&a, &g1_zero()) {
        (b, n, params.h2.clone())
    } else {
        (a, m, params.h1.clone())
    };

    let total = keys.len();
    let mut i: usize = 0;
    while i < total
        invariant
            total == keys@.len(),
            i <= total,
            ax == detection_terms(*params, *sn0, *sn1, *tag0, *tag0_pf, *tag1, *tag1_pf).0,
            mx == detection_terms(*params, *sn0, *sn1, *tag0, *tag0_pf, *tag1, *tag1_pf).1,
            hx == detection_terms(*params, *sn0, *sn1, *tag0, *tag0_pf, *tag1, *tag1_pf).2,
            tx == detection_terms(*params, *sn0, *sn1, *tag0, *tag0_pf, *tag1, *tag1_pf).3,
            forall|j: int|
                0 <= j < i ==> !incriminates(
                    params.g,
                    #[trigger] keys@[j],
                    ax,
                    mx,
                    hx,
                    tx,
                ),
        decreases total - i,
    {
        let lhs = pairing(&ax, &params.g);
        let rhs = gt_add(&pairing(&mx, &keys[i].pk), &pairing(&hx, &tx));
        if gt_eq(&lhs, &rhs) {
            return Some((keys[i].clone(), DetectionProof { ax, mx, tx }));
        }
        i = i + 1;
    }
    None
}

} // verus!
