//! The spender's public key and the consistency checks run against it: flat
//! pairing-equality checks, each stated exactly by a spec predicate.

use super::detect::DetectionProof;
use super::message::Message;
use super::serial_number::{SerialNumber, SerialNumberProof};
use super::tag::{Tag, TagProof};
use crate::group::{
    g1_neg, g1_neg_of, g2_eq, g2_neg, g2_neg_of, gt_add, gt_add_of, gt_eq, gt_neg, gt_neg_of,
    gt_zero, gt_zero_of, pairing, pairing_of, G2,
};
use crate::params::Params;
use vstd::prelude::*;

verus! {

/// The spender's public key: the secret scalar's G2 image.
pub struct PublicKey {
    pub pk: G2,
}

impl Clone for PublicKey {
    fn clone(&self) -> (r: Self)
        ensures
            r == *self,
    {
        PublicKey { pk: self.pk.clone() }
    }
}

/// The incrimination equation: `e(ax, g) = e(mx, pk) + e(hx, tx)`.
pub open spec fn incriminates(
    g: G2,
    pk: PublicKey,
    ax: crate::group::G1,
    mx: crate::group::G1,
    hx: crate::group::G1,
    tx: G2,
) -> bool {
    pairing_of(ax, g) == gt_add_of(pairing_of(mx, pk.pk), pairing_of(hx, tx))
}

/// The first-serial-number consistency relation of
/// [`PublicKey::verify_first_serial_number`].
pub open spec fn first_serial_number_ok(
    pk: PublicKey,
    params: Params,
    sn: SerialNumber,
    msgs: (Message, Message),
) -> bool {
    &&& gt_add_of(
        pairing_of(sn.m, params.g),
        pairing_of(g1_neg_of(params.g1), msgs.0.n),
    ) == gt_zero_of(())
    &&& gt_add_of(
        gt_add_of(pairing_of(sn.n, params.g), pairing_of(g1_neg_of(params.g2), msgs.0.n)),
        pairing_of(g1_neg_of(params.g2), pk.pk),
    ) == gt_zero_of(())
    &&& msgs.1.n == pk.pk
    &&& gt_add_of(
        pairing_of(msgs.0.m, params.g),
        gt_neg_of(pairing_of(params.g1, msgs.0.n)),
    ) == gt_zero_of(())
    &&& gt_add_of(
        pairing_of(msgs.1.m, params.g),
        gt_neg_of(pairing_of(params.g1, msgs.1.n)),
    ) == gt_zero_of(())
}

/// The serial-number consistency relation of
/// [`PublicKey::verify_serial_number`].
pub open spec fn serial_number_ok(
    pk: PublicKey,
    params: Params,
    sn: SerialNumber,
    sn_pf: SerialNumberProof,
) -> bool {
    &&& gt_add_of(
        pairing_of(sn.m, params.g),
        pairing_of(g1_neg_of(params.g1), sn_pf.sn_pf),
    ) == gt_zero_of(())
    &&& gt_add_of(
        gt_add_of(pairing_of(sn.n, params.g), pairing_of(g1_neg_of(params.g2), sn_pf.sn_pf)),
        pairing_of(g1_neg_of(params.g2), pk.pk),
    ) == gt_zero_of(())
}

/// The tag consistency relation of [`PublicKey::verify_tag`].
pub open spec fn tag_ok(
    pk: PublicKey,
    params: Params,
    sn: SerialNumber,
    sn_d: SerialNumber,
    tag: Tag,
    tag_pf: TagProof,
) -> bool {
    &&& gt_add_of(
        pairing_of(sn.m, params.g),
        pairing_of(g1_neg_of(params.g1), tag_pf.t_pf),
    ) == gt_zero_of(())
    &&& gt_add_of(
        gt_add_of(pairing_of(tag.a, g2_neg_of(params.g)), pairing_of(sn_d.m, pk.pk)),
        pairing_of(params.h1, tag_pf.t_pf),
    ) == gt_zero_of(())
    &&& gt_add_of(
        gt_add_of(pairing_of(tag.b, g2_neg_of(params.g)), pairing_of(sn_d.n, pk.pk)),
        pairing_of(params.h2, tag_pf.t_pf),
    ) == gt_zero_of(())
}

impl PublicKey {
    /// Wrap a G2 point as a public key.
    pub fn from(pk: G2) -> (r: Self)
        ensures
            r.pk == pk,
    {
        Self { pk }
    }

    /// The incrimination-proof verification function: the detection equation
    /// must hold against this key with either auxiliary generator.
    pub fn verify_guilt(&self, params: &Params, proof: &DetectionProof) -> (r: bool)
        ensures
            r == (incriminates(params.g, *self, proof.ax, proof.mx, params.h1, proof.tx)
                || incriminates(params.g, *self, proof.ax, proof.mx, params.h2, proof.tx)),
    {
        let lhs = pairing(&proof.ax, &params.g);
        let rhs_0 = pairing(&proof.mx, &self.pk);
        gt_eq(&lhs, &gt_add(&rhs_0, &pairing(&params.h1, &proof.tx))) || gt_eq(
            &lhs,
            &gt_add(&rhs_0, &pairing(&params.h2, &proof.tx)),
        )
    }

    /// Check a first serial number and its signed messages against this key.
    pub fn verify_first_serial_number(
        &self,
        params: &Params,
        sn: &SerialNumber,
        msgs: &(Message, Message),
    ) -> (r: bool)
        ensures
            r == first_serial_number_ok(*self, *params, *sn, *msgs),
    {
        let eq = gt_add(
            &pairing(&sn.m, &params.g),
            &pairing(&g1_neg(&params.g1), &msgs.0.n),
        );
        if !gt_eq(&eq, &gt_zero()) {
            return false;
        }
        let eq = gt_add(
            &gt_add(
                &pairing(&sn.n, &params.g),
                &pairing(&g1_neg(&params.g2), &msgs.0.n),
            ),
            &pairing(&g1_neg(&params.g2), &self.pk),
        );
        if !gt_eq(&eq, &gt_zero()) {
            return false;
        }
        if !g2_eq(&msgs.1.n, &self.pk) {
            return false;
        }
        let eq = gt_add(
            &pairing(&msgs.0.m, &params.g),
            &gt_neg(&pairing(&params.g1, &msgs.0.n)),
        );
        if !gt_eq(&eq, &gt_zero()) {
            return false;
        }
        let eq = gt_add(
            &pairing(&msgs.1.m, &params.g),
            &gt_neg(&pairing(&params.g1, &msgs.1.n)),
        );
        if !gt_eq(&eq, &gt_zero()) {
            return false;
        }
        true
    }

    /// Check a serial number and its well-formedness proof against this key.
    pub fn verify_serial_number(
        &self,
        params: &Params,
        sn: &SerialNumber,
        sn_pf: &SerialNumberProof,
    ) -> (r: bool)
        ensures
            r == serial_number_ok(*self, *params, *sn, *sn_pf),
    {
        let eq = gt_add(
            &pairing(&sn.m, &params.g),
            &pairing(&g1_neg(&params.g1), &sn_pf.sn_pf),
        );
        if !gt_eq(&eq, &gt_zero()) {
            return false;
        }
        let eq = gt_add(
            &gt_add(
                &pairing(&sn.n, &params.g),
                &pairing(&g1_neg(&params.g2), &sn_pf.sn_pf),
            ),
            &pairing(&g1_neg(&params.g2), &self.pk),
        );
        if !gt_eq(&eq, &gt_zero()) {
            return false;
        }
        true
    }

    /// Check a double-spending tag for consistency with this key and the two
    /// serial numbers it spans.
    pub fn verify_tag(
        &self,
        params: &Params,
        sn: &SerialNumber,
        sn_d: &SerialNumber,
        tag: &Tag,
        tag_pf: &TagProof,
    ) -> (r: bool)
        ensures
            r == tag_ok(*self, *params, *sn, *sn_d, *tag, *tag_pf),
    {
        let eq = gt_add(
            &pairing(&sn.m, &params.g),
            &pairing(&g1_neg(&params.g1), &tag_pf.t_pf),
        );
        if !gt_eq(&eq, &gt_zero()) {
            return false;
        }
        let eq = gt_add(
            &gt_add(
                &pairing(&tag.a, &g2_neg(&params.g)),
                &pairing(&sn_d.m, &self.pk),
            ),
            &pairing(&params.h1, &tag_pf.t_pf),
        );
        if !gt_eq(&eq, &gt_zero()) {
            return false;
        }
        let eq = gt_add(
            &gt_add(
                &pairing(&tag.b, &g2_neg(&params.g)),
                &pairing(&sn_d.n, &self.pk),
            ),
            &pairing(&params.h2, &tag_pf.t_pf),
        );
        if !gt_eq(&eq, &gt_zero()) {
            return false;
        }
        true
    }
}

} // verus!
