//! Double-spending detection: serial numbers, tags and flat pairing-equality
//! checks keyed to a set of public keys. This module consumes only canonical
//! group equality and pairing evaluation from the group layer.

pub mod detect;
pub mod message;
pub mod public_key;
pub mod secret_key;
pub mod serial_number;
pub mod tag;
