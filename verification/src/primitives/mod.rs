//! The primitives that the protocol is built on, each behind one small
//! function per ciphersuite component: the hash with HKDF and HMAC, the
//! key-exchange groups, the OPRF, and the random number generator.
//!
//! No other module names a ciphersuite component by its own type.

pub mod group;
pub mod hash;
pub mod oprf;
pub mod rng;
