//! The authenticated key exchange that a login runs on.

pub mod traits;
pub mod tripledh;
