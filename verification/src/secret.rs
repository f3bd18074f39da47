//! Secrets that live for one function call.

use vstd::prelude::*;

use crate::primitives::rng::erase;

verus! {

/// A secret byte string that lives for one function call. It is
/// overwritten with zeros when it goes out of scope, on every path.
pub struct Secret {
    pub bytes: Vec<u8>,
}

impl View for Secret {
    type V = Seq<u8>;

    open spec fn view(&self) -> Seq<u8> {
        self.bytes@
    }
}

impl Secret {
    /// Takes `bytes` into keeping.
    pub fn new(bytes: Vec<u8>) -> (secret: Secret)
        ensures
            secret@ == bytes@,
    {
        Secret { bytes }
    }

    /// The bytes.
    pub fn as_slice(&self) -> (bytes: &[u8])
        ensures
            bytes@ == self@,
    {
        self.bytes.as_slice()
    }
}

impl Drop for Secret {
    fn drop(&mut self)
        opens_invariants none
        no_unwind
    {
        erase(&mut self.bytes);
    }
}

} // verus!
