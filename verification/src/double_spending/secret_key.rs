//! The spender's secret key and the values it derives for each spend.

use super::message::Message;
use super::serial_number::{SerialNumber, SerialNumberProof};
use super::tag::{Tag, TagProof};
use crate::group::{
    fr_add, fr_add_of, g1_add, g1_add_of, g1_mul, g1_mul_of, g2_mul, g2_mul_of, Scalar,
};
use crate::params::Params;
use vstd::prelude::*;

verus! {

/// The spender's secret scalar.
pub struct SecretKey {
    pub sk: Scalar,
}

impl SecretKey {
    /// Derive the first serial number of a freshly withdrawn coin together
    /// with the message pair the bank signs:
    /// `sn = (g1 * n, g2 * (sk + n))`, `M = (g1 * n, g * n)`,
    /// `M' = (g1 * sk, g * sk)`.
    pub fn init_serial_number(&self, params: &Params, n: &Scalar) -> (r: (
        SerialNumber,
        (Message, Message),
    ))
        ensures
            r.0.m == g1_mul_of(params.g1, *n),
            r.0.n == g1_mul_of(params.g2, fr_add_of(self.sk, *n)),
            r.1.0.m == g1_mul_of(params.g1, *n),
            r.1.0.n == g2_mul_of(params.g, *n),
            r.1.1.m == g1_mul_of(params.g1, self.sk),
            r.1.1.n == g2_mul_of(params.g, self.sk),
    {
        let sn_0 = g1_mul(&params.g1, n);
        let sn_1 = g1_mul(&params.g2, &fr_add(&self.sk, n));
        let message_0 = Message { m: g1_mul(&params.g1, n), n: g2_mul(&params.g, n) };
        let message_1 = Message { m: g1_mul(&params.g1, &self.sk), n: g2_mul(&params.g, &self.sk) };
        (SerialNumber { m: sn_0, n: sn_1 }, (message_0, message_1))
    }

    /// Derive a serial number for a spend together with its well-formedness
    /// proof: `sn = (g1 * n, g2 * (sk + n))`, proof `g * n`.
    pub fn generate_serial_number(&self, params: &Params, n: &Scalar) -> (r: (
        SerialNumber,
        SerialNumberProof,
    ))
        ensures
            r.0.m == g1_mul_of(params.g1, *n),
            r.0.n == g1_mul_of(params.g2, fr_add_of(self.sk, *n)),
            r.1.sn_pf == g2_mul_of(params.g, *n),
    {
        let sn_0 = g1_mul(&params.g1, n);
        let sn_1 = g1_mul(&params.g2, &fr_add(&self.sk, n));
        (SerialNumber { m: sn_0, n: sn_1 }, SerialNumberProof { sn_pf: g2_mul(&params.g, n) })
    }

    /// Derive the double-spending tag binding this spend's nonce `n` to the
    /// serial number `sn` being spent:
    /// `A = sn.m * sk + h1 * n`, `B = sn.n * sk + h2 * n`, proof `g * n`.
    pub fn generate_tag(&self, params: &Params, n: &Scalar, sn: &SerialNumber) -> (r: (
        Tag,
        TagProof,
    ))
        ensures
            r.0.a == g1_add_of(g1_mul_of(sn.m, self.sk), g1_mul_of(params.h1, *n)),
            r.0.b == g1_add_of(g1_mul_of(sn.n, self.sk), g1_mul_of(params.h2, *n)),
            r.1.t_pf == g2_mul_of(params.g, *n),
    {
        let tag_0 = g1_add(&g1_mul(&sn.m, &self.sk), &g1_mul(&params.h1, n));
        let tag_1 = g1_add(&g1_mul(&sn.n, &self.sk), &g1_mul(&params.h2, n));
        (Tag { a: tag_0, b: tag_1 }, TagProof { t_pf: g2_mul(&params.g, n) })
    }
}

} // verus!
