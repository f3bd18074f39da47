//! The core of the OPAQUE augmented password-authenticated key exchange:
//! the envelope, the 3DH key exchange, the registration and login flows and
//! the byte-exact wire formats, over ciphersuites fixed at run time.
//!
//! Every value that crosses a function boundary is a byte string or a
//! structure of byte strings. What a cryptographic primitive computes is
//! named by an uninterpreted function of its inputs; the contracts of this
//! crate say which primitive is applied to which bytes, in which order.

pub mod bytes;
pub mod ciphersuite;
pub mod envelope;
pub mod errors;
pub mod identifiers;
pub mod key_exchange;
pub mod keypair;
pub mod labels;
pub mod laws;
pub mod messages;
pub mod opaque;
pub mod primitives;
pub mod secret;
