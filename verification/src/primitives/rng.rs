//! The random number generator that callers hand in, and the erasure of
//! secrets.

use rand::rngs::StdRng;
use rand::RngCore;
use vstd::prelude::*;
use zeroize::Zeroize;

verus! {

/// `rand::rngs::StdRng`, the cryptographically secure generator that the
/// caller seeds and lends to each randomized operation.
#[verifier::external_type_specification]
#[verifier::external_body]
pub struct ExStdRng(StdRng);

/// `rand::RngCore::fill_bytes` on a fresh buffer: `len` bytes, of which
/// nothing but their number is known.
#[verifier::external_body]
pub(crate) fn random_bytes(rng: &mut StdRng, len: usize) -> (out: Vec<u8>)
    ensures
        out@.len() == len,
{
    let mut out = vec![0u8; len];
    rng.fill_bytes(&mut out);
    out
}

/// `zeroize::Zeroize::zeroize` on a vector: every byte is overwritten with
/// zero and the vector is left empty. It does not panic.
#[verifier::external_body]
pub(crate) fn erase(secret: &mut Vec<u8>)
    ensures
        final(secret)@.len() == 0,
    opens_invariants none
    no_unwind
{
    secret.zeroize();
}

} // verus!
