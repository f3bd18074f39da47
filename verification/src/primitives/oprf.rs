//! The oblivious pseudorandom function, in its two configurations:
//! ristretto255 with SHA-512 and P-256 with SHA-256.
//!
//! Blinds, keys and elements are handled in their fixed-length serialized
//! form.

use curve25519_dalek::ristretto::CompressedRistretto;
use p256::{EncodedPoint, NistP256};
use rand::rngs::StdRng;
use sha2::{Sha256, Sha512};
use voprf::{BlindedElement, EvaluationElement, Group, Mode, OprfClient, OprfServer, Ristretto255};
use vstd::prelude::*;

use crate::bytes::view_opt;
use crate::ciphersuite::OprfSuite;
use crate::primitives::group::{
    is_p256_point,
    p256_point_valid,
    p256_random_scalar,
    ristretto255_element_ok,
    ristretto255_random_scalar,
    spec_ristretto255_element_ok,
};

verus! {

/// Whether 32 bytes decode to the identity of ristretto255.
pub uninterp spec fn spec_ristretto255_is_identity(bytes: Seq<u8>) -> bool;

/// The blinded element for `input` under the blind `blind`, with
/// ristretto255 and SHA-512; `None` where the OPRF refuses one of them.
pub uninterp spec fn spec_ristretto255_oprf_blind(input: Seq<u8>, blind: Seq<u8>) -> Option<
    Seq<u8>,
>;

/// The evaluation of `blinded` under `key`, with ristretto255 and SHA-512;
/// `None` where the OPRF refuses one of them.
pub uninterp spec fn spec_ristretto255_oprf_evaluate(key: Seq<u8>, blinded: Seq<u8>) -> Option<
    Seq<u8>,
>;

/// The OPRF output for `input`, unblinded with `blind` from `evaluated`,
/// with ristretto255 and SHA-512; `None` where the OPRF refuses an
/// argument.
pub uninterp spec fn spec_ristretto255_oprf_finalize(
    input: Seq<u8>,
    blind: Seq<u8>,
    evaluated: Seq<u8>,
) -> Option<Seq<u8>>;

/// The OPRF key derived from `seed` and `info`, with ristretto255 and
/// SHA-512; `None` where the derivation fails.
pub uninterp spec fn spec_ristretto255_oprf_derive_key(seed: Seq<u8>, info: Seq<u8>) -> Option<
    Seq<u8>,
>;

/// The ristretto255 scalar that `input` hashes to with SHA-512 under the
/// domain separation tag `dst`; `None` where hashing fails.
pub uninterp spec fn spec_ristretto255_hash_to_scalar(input: Seq<u8>, dst: Seq<u8>) -> Option<
    Seq<u8>,
>;

/// Whether 33 bytes are the SEC1 encoding of the identity of P-256.
pub uninterp spec fn spec_p256_is_identity(bytes: Seq<u8>) -> bool;

/// The blinded element for `input` under the blind `blind`, with P-256 and
/// SHA-256; `None` where the OPRF refuses one of them.
pub uninterp spec fn spec_p256_oprf_blind(input: Seq<u8>, blind: Seq<u8>) -> Option<Seq<u8>>;

/// The evaluation of `blinded` under `key`, with P-256 and SHA-256; `None`
/// where the OPRF refuses one of them.
pub uninterp spec fn spec_p256_oprf_evaluate(key: Seq<u8>, blinded: Seq<u8>) -> Option<Seq<u8>>;

/// The OPRF output for `input`, unblinded with `blind` from `evaluated`,
/// with P-256 and SHA-256; `None` where the OPRF refuses an argument.
pub uninterp spec fn spec_p256_oprf_finalize(
    input: Seq<u8>,
    blind: Seq<u8>,
    evaluated: Seq<u8>,
) -> Option<Seq<u8>>;

/// The OPRF key derived from `seed` and `info`, with P-256 and SHA-256;
/// `None` where the derivation fails.
pub uninterp spec fn spec_p256_oprf_derive_key(seed: Seq<u8>, info: Seq<u8>) -> Option<Seq<u8>>;

/// The P-256 scalar that `input` hashes to with SHA-256 under the domain
/// separation tag `dst`; `None` where hashing fails.
pub uninterp spec fn spec_p256_hash_to_scalar(input: Seq<u8>, dst: Seq<u8>) -> Option<Seq<u8>>;

/// `curve25519_dalek::ristretto::CompressedRistretto::decompress`, and
/// `voprf::Group::is_identity_elem` of `voprf::Ristretto255` on what it
/// yields: whether the bytes decode, and to the identity.
#[verifier::external_body]
fn ristretto255_is_identity(bytes: &[u8]) -> (same: bool)
    requires
        bytes@.len() == 32,
    ensures
        same == spec_ristretto255_is_identity(bytes@),
{
    match CompressedRistretto::from_slice(bytes) {
        Ok(compressed) => match compressed.decompress() {
            Some(point) => bool::from(<Ristretto255 as Group>::is_identity_elem(point)),
            None => false,
        },
        Err(_) => false,
    }
}

/// `voprf::OprfClient::<Ristretto255>::deterministic_blind_unchecked` on
/// the scalar that `deserialize_scalar` reads from `blind`; the message is
/// serialized, 32 bytes.
#[verifier::external_body]
fn ristretto255_oprf_blind(input: &[u8], blind: &[u8]) -> (out: Option<Vec<u8>>)
    requires
        blind@.len() == 32,
    ensures
        view_opt(out) == spec_ristretto255_oprf_blind(input@, blind@),
        out matches Some(e) ==> e@.len() == 32,
{
    let b = <Ristretto255 as Group>::deserialize_scalar(blind).ok()?;
    let r = OprfClient::<Ristretto255>::deterministic_blind_unchecked(input, b).ok()?;
    Some(r.message.serialize().to_vec())
}

/// `voprf::OprfServer::<Ristretto255>::blind_evaluate`, with the server
/// made by `new_with_key` and the element read by
/// `BlindedElement::deserialize`; the result is serialized, 32 bytes.
#[verifier::external_body]
fn ristretto255_oprf_evaluate(key: &[u8], blinded: &[u8]) -> (out: Option<Vec<u8>>)
    requires
        key@.len() == 32,
        blinded@.len() == 32,
    ensures
        view_opt(out) == spec_ristretto255_oprf_evaluate(key@, blinded@),
        out matches Some(e) ==> e@.len() == 32,
{
    let server = OprfServer::<Ristretto255>::new_with_key(key).ok()?;
    let element = BlindedElement::<Ristretto255>::deserialize(blinded).ok()?;
    Some(server.blind_evaluate(&element).serialize().to_vec())
}

/// `voprf::OprfClient::<Ristretto255>::finalize`, with the client read by
/// `OprfClient::deserialize` from `blind` and the element by
/// `EvaluationElement::deserialize`; the output is 64 bytes.
#[verifier::external_body]
fn ristretto255_oprf_finalize(input: &[u8], blind: &[u8], evaluated: &[u8]) -> (out: Option<
    Vec<u8>,
>)
    requires
        blind@.len() == 32,
        evaluated@.len() == 32,
    ensures
        view_opt(out) == spec_ristretto255_oprf_finalize(input@, blind@, evaluated@),
        out matches Some(o) ==> o@.len() == 64,
{
    let client = OprfClient::<Ristretto255>::deserialize(blind).ok()?;
    let element = EvaluationElement::<Ristretto255>::deserialize(evaluated).ok()?;
    Some(client.finalize(input, &element).ok()?.to_vec())
}

/// `voprf::derive_key::<Ristretto255>` in the mode `Mode::Oprf`; the key
/// is serialized, 32 bytes.
#[verifier::external_body]
fn ristretto255_oprf_derive_key(seed: &[u8], info: &[u8]) -> (out: Option<Vec<u8>>)
    ensures
        view_opt(out) == spec_ristretto255_oprf_derive_key(seed@, info@),
        out matches Some(k) ==> k@.len() == 32,
{
    let key = voprf::derive_key::<Ristretto255>(seed, info, Mode::Oprf).ok()?;
    Some(<Ristretto255 as Group>::serialize_scalar(key).to_vec())
}

/// `voprf::Group::hash_to_scalar` of `voprf::Ristretto255` with SHA-512;
/// the scalar is serialized, 32 bytes.
#[verifier::external_body]
fn ristretto255_hash_to_scalar(input: &[u8], dst: &[u8]) -> (out: Option<Vec<u8>>)
    ensures
        view_opt(out) == spec_ristretto255_hash_to_scalar(input@, dst@),
        out matches Some(s) ==> s@.len() == 32,
{
    let s = <Ristretto255 as Group>::hash_to_scalar::<Sha512>(&[input], &[dst]).ok()?;
    Some(<Ristretto255 as Group>::serialize_scalar(s).to_vec())
}

/// `p256::EncodedPoint::from_bytes` and `is_identity` on what it yields:
/// whether the bytes parse, and as the identity.
#[verifier::external_body]
fn p256_is_identity(bytes: &[u8]) -> (same: bool)
    requires
        bytes@.len() == 33,
    ensures
        same == spec_p256_is_identity(bytes@),
{
    match EncodedPoint::from_bytes(bytes) {
        Ok(point) => point.is_identity(),
        Err(_) => false,
    }
}

/// `voprf::OprfClient::<NistP256>::deterministic_blind_unchecked` on the
/// scalar that `deserialize_scalar` reads from `blind`; the message is
/// serialized, 33 bytes.
#[verifier::external_body]
fn p256_oprf_blind(input: &[u8], blind: &[u8]) -> (out: Option<Vec<u8>>)
    requires
        blind@.len() == 32,
    ensures
        view_opt(out) == spec_p256_oprf_blind(input@, blind@),
        out matches Some(e) ==> e@.len() == 33,
{
    let b = <NistP256 as Group>::deserialize_scalar(blind).ok()?;
    let r = OprfClient::<NistP256>::deterministic_blind_unchecked(input, b).ok()?;
    Some(r.message.serialize().to_vec())
}

/// `voprf::OprfServer::<NistP256>::blind_evaluate`, with the server made
/// by `new_with_key` and the element read by `BlindedElement::deserialize`;
/// the result is serialized, 33 bytes.
#[verifier::external_body]
fn p256_oprf_evaluate(key: &[u8], blinded: &[u8]) -> (out: Option<Vec<u8>>)
    requires
        key@.len() == 32,
        blinded@.len() == 33,
    ensures
        view_opt(out) == spec_p256_oprf_evaluate(key@, blinded@),
        out matches Some(e) ==> e@.len() == 33,
{
    let server = OprfServer::<NistP256>::new_with_key(key).ok()?;
    let element = BlindedElement::<NistP256>::deserialize(blinded).ok()?;
    Some(server.blind_evaluate(&element).serialize().to_vec())
}

/// `voprf::OprfClient::<NistP256>::finalize`, with the client read by
/// `OprfClient::deserialize` from `blind` and the element by
/// `EvaluationElement::deserialize`; the output is 32 bytes.
#[verifier::external_body]
fn p256_oprf_finalize(input: &[u8], blind: &[u8], evaluated: &[u8]) -> (out: Option<Vec<u8>>)
    requires
        blind@.len() == 32,
        evaluated@.len() == 33,
    ensures
        view_opt(out) == spec_p256_oprf_finalize(input@, blind@, evaluated@),
        out matches Some(o) ==> o@.len() == 32,
{
    let client = OprfClient::<NistP256>::deserialize(blind).ok()?;
    let element = EvaluationElement::<NistP256>::deserialize(evaluated).ok()?;
    Some(client.finalize(input, &element).ok()?.to_vec())
}

/// `voprf::derive_key::<NistP256>` in the mode `Mode::Oprf`; the key is
/// serialized, 32 bytes.
#[verifier::external_body]
fn p256_oprf_derive_key(seed: &[u8], info: &[u8]) -> (out: Option<Vec<u8>>)
    ensures
        view_opt(out) == spec_p256_oprf_derive_key(seed@, info@),
        out matches Some(k) ==> k@.len() == 32,
{
    let key = voprf::derive_key::<NistP256>(seed, info, Mode::Oprf).ok()?;
    Some(<NistP256 as Group>::serialize_scalar(key).to_vec())
}

/// `voprf::Group::hash_to_scalar` of `p256::NistP256` with SHA-256; the
/// scalar is serialized, 32 bytes.
#[verifier::external_body]
fn p256_hash_to_scalar(input: &[u8], dst: &[u8]) -> (out: Option<Vec<u8>>)
    ensures
        view_opt(out) == spec_p256_hash_to_scalar(input@, dst@),
        out matches Some(s) ==> s@.len() == 32,
{
    let s = <NistP256 as Group>::hash_to_scalar::<Sha256>(&[input], &[dst]).ok()?;
    Some(<NistP256 as Group>::serialize_scalar(s).to_vec())
}

/// Whether `bytes`, of the length of an element, decode to the identity of
/// the group of `suite`.
pub open spec fn element_is_identity(suite: OprfSuite, bytes: Seq<u8>) -> bool {
    bytes.len() == suite.element_len() && match suite {
        OprfSuite::Ristretto255Sha512 => spec_ristretto255_is_identity(bytes),
        OprfSuite::P256Sha256 => spec_p256_is_identity(bytes),
    }
}

/// Whether `bytes` are the encoding of an element of the group of `suite`
/// other than the identity.
pub open spec fn element_valid(suite: OprfSuite, bytes: Seq<u8>) -> bool {
    bytes.len() == suite.element_len() && match suite {
        OprfSuite::Ristretto255Sha512 => spec_ristretto255_element_ok(bytes),
        OprfSuite::P256Sha256 => p256_point_valid(bytes),
    }
}

/// The blinded element for `input` under `blind`.
pub open spec fn spec_blind(suite: OprfSuite, input: Seq<u8>, blind: Seq<u8>) -> Option<Seq<u8>> {
    if blind.len() != suite.scalar_len() {
        None
    } else {
        match suite {
            OprfSuite::Ristretto255Sha512 => spec_ristretto255_oprf_blind(input, blind),
            OprfSuite::P256Sha256 => spec_p256_oprf_blind(input, blind),
        }
    }
}

/// The evaluation of the blinded element `blinded` under the key `key`.
pub open spec fn spec_blind_evaluate(suite: OprfSuite, key: Seq<u8>, blinded: Seq<u8>) -> Option<
    Seq<u8>,
> {
    if key.len() != suite.scalar_len() || blinded.len() != suite.element_len() {
        None
    } else {
        match suite {
            OprfSuite::Ristretto255Sha512 => spec_ristretto255_oprf_evaluate(key, blinded),
            OprfSuite::P256Sha256 => spec_p256_oprf_evaluate(key, blinded),
        }
    }
}

/// The OPRF output for `input`, unblinded with `blind` from `evaluated`.
pub open spec fn spec_finalize(
    suite: OprfSuite,
    input: Seq<u8>,
    blind: Seq<u8>,
    evaluated: Seq<u8>,
) -> Option<Seq<u8>> {
    if blind.len() != suite.scalar_len() || evaluated.len() != suite.element_len() {
        None
    } else {
        match suite {
            OprfSuite::Ristretto255Sha512 => spec_ristretto255_oprf_finalize(
                input,
                blind,
                evaluated,
            ),
            OprfSuite::P256Sha256 => spec_p256_oprf_finalize(input, blind, evaluated),
        }
    }
}

/// The OPRF key derived from `seed` and `info`.
pub open spec fn spec_derive_key(suite: OprfSuite, seed: Seq<u8>, info: Seq<u8>) -> Option<
    Seq<u8>,
> {
    match suite {
        OprfSuite::Ristretto255Sha512 => spec_ristretto255_oprf_derive_key(seed, info),
        OprfSuite::P256Sha256 => spec_p256_oprf_derive_key(seed, info),
    }
}

/// The scalar that `input` hashes to under the tag `dst`.
pub open spec fn spec_hash_to_scalar(suite: OprfSuite, input: Seq<u8>, dst: Seq<u8>) -> Option<
    Seq<u8>,
> {
    match suite {
        OprfSuite::Ristretto255Sha512 => spec_ristretto255_hash_to_scalar(input, dst),
        OprfSuite::P256Sha256 => spec_p256_hash_to_scalar(input, dst),
    }
}

/// Whether `bytes` decode to the identity of the group.
pub fn is_identity_element(suite: OprfSuite, bytes: &[u8]) -> (same: bool)
    ensures
        same == element_is_identity(suite, bytes@),
{
    if bytes.len() != suite.element_size() {
        return false;
    }
    match suite {
        OprfSuite::Ristretto255Sha512 => ristretto255_is_identity(bytes),
        OprfSuite::P256Sha256 => p256_is_identity(bytes),
    }
}

/// Whether `bytes` encode an element of the group other than the identity.
pub fn is_element(suite: OprfSuite, bytes: &[u8]) -> (ok: bool)
    ensures
        ok == element_valid(suite, bytes@),
{
    if bytes.len() != suite.element_size() {
        return false;
    }
    match suite {
        OprfSuite::Ristretto255Sha512 => ristretto255_element_ok(bytes),
        OprfSuite::P256Sha256 => is_p256_point(bytes),
    }
}

/// Blinds `input` with `blind`. The result has the length of an element.
pub fn blind(suite: OprfSuite, input: &[u8], scalar: &[u8]) -> (out: Option<Vec<u8>>)
    ensures
        view_opt(out) == spec_blind(suite, input@, scalar@),
        out matches Some(e) ==> e@.len() == suite.element_len(),
{
    if scalar.len() != suite.scalar_size() {
        return None;
    }
    match suite {
        OprfSuite::Ristretto255Sha512 => ristretto255_oprf_blind(input, scalar),
        OprfSuite::P256Sha256 => p256_oprf_blind(input, scalar),
    }
}

/// Evaluates the blinded element under the key. The result has the length
/// of an element.
pub fn blind_evaluate(suite: OprfSuite, key: &[u8], blinded: &[u8]) -> (out: Option<Vec<u8>>)
    ensures
        view_opt(out) == spec_blind_evaluate(suite, key@, blinded@),
        out matches Some(e) ==> e@.len() == suite.element_len(),
{
    if key.len() != suite.scalar_size() || blinded.len() != suite.element_size() {
        return None;
    }
    match suite {
        OprfSuite::Ristretto255Sha512 => ristretto255_oprf_evaluate(key, blinded),
        OprfSuite::P256Sha256 => p256_oprf_evaluate(key, blinded),
    }
}

/// Unblinds the evaluated element and hashes it with the input. The result
/// has the length of a digest.
pub fn finalize(suite: OprfSuite, input: &[u8], blind: &[u8], evaluated: &[u8]) -> (out: Option<
    Vec<u8>,
>)
    ensures
        view_opt(out) == spec_finalize(suite, input@, blind@, evaluated@),
        out matches Some(o) ==> o@.len() == suite.hash_of().output_len(),
{
    if blind.len() != suite.scalar_size() || evaluated.len() != suite.element_size() {
        return None;
    }
    match suite {
        OprfSuite::Ristretto255Sha512 => ristretto255_oprf_finalize(input, blind, evaluated),
        OprfSuite::P256Sha256 => p256_oprf_finalize(input, blind, evaluated),
    }
}

/// Derives an OPRF key from a seed. The result has the length of a scalar.
pub fn derive_key(suite: OprfSuite, seed: &[u8], info: &[u8]) -> (out: Option<Vec<u8>>)
    ensures
        view_opt(out) == spec_derive_key(suite, seed@, info@),
        out matches Some(k) ==> k@.len() == suite.scalar_len(),
{
    match suite {
        OprfSuite::Ristretto255Sha512 => ristretto255_oprf_derive_key(seed, info),
        OprfSuite::P256Sha256 => p256_oprf_derive_key(seed, info),
    }
}

/// Hashes `input` to a scalar under the tag `dst`. The result has the
/// length of a scalar.
pub fn hash_to_scalar(suite: OprfSuite, input: &[u8], dst: &[u8]) -> (out: Option<Vec<u8>>)
    ensures
        view_opt(out) == spec_hash_to_scalar(suite, input@, dst@),
        out matches Some(s) ==> s@.len() == suite.scalar_len(),
{
    match suite {
        OprfSuite::Ristretto255Sha512 => ristretto255_hash_to_scalar(input, dst),
        OprfSuite::P256Sha256 => p256_hash_to_scalar(input, dst),
    }
}

/// A scalar of the OPRF group drawn from `rng`, to blind with. Whether the
/// OPRF takes it is for the caller to find out.
pub fn random_blind(suite: OprfSuite, rng: &mut StdRng) -> (out: Vec<u8>)
    ensures
        out@.len() == suite.scalar_len(),
{
    match suite {
        OprfSuite::Ristretto255Sha512 => ristretto255_random_scalar(rng),
        OprfSuite::P256Sha256 => p256_random_scalar(rng),
    }
}

} // verus!
