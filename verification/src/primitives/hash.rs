//! SHA-2, HKDF and HMAC, and the constant-time comparison of byte strings.

use digest::Digest;
use hkdf::Hkdf;
use hmac::{Hmac, Mac};
use sha2::{Sha256, Sha512};
use subtle::ConstantTimeEq;
use vstd::prelude::*;

use crate::ciphersuite::HashAlg;

verus! {

/// The SHA-256 digest of `data`.
pub uninterp spec fn spec_sha256(data: Seq<u8>) -> Seq<u8>;

/// The SHA-512 digest of `data`.
pub uninterp spec fn spec_sha512(data: Seq<u8>) -> Seq<u8>;

/// HKDF-Extract with SHA-256 and the default salt, a string of zeros.
pub uninterp spec fn spec_hkdf_extract_sha256(ikm: Seq<u8>) -> Seq<u8>;

/// HKDF-Extract with SHA-512 and the default salt, a string of zeros.
pub uninterp spec fn spec_hkdf_extract_sha512(ikm: Seq<u8>) -> Seq<u8>;

/// HKDF-Expand with SHA-256: `len` bytes from `prk` and `info`.
pub uninterp spec fn spec_hkdf_expand_sha256(prk: Seq<u8>, info: Seq<u8>, len: nat) -> Seq<u8>;

/// HKDF-Expand with SHA-512: `len` bytes from `prk` and `info`.
pub uninterp spec fn spec_hkdf_expand_sha512(prk: Seq<u8>, info: Seq<u8>, len: nat) -> Seq<u8>;

/// The HMAC-SHA-256 tag of `data` under `key`.
pub uninterp spec fn spec_hmac_sha256(key: Seq<u8>, data: Seq<u8>) -> Seq<u8>;

/// The HMAC-SHA-512 tag of `data` under `key`.
pub uninterp spec fn spec_hmac_sha512(key: Seq<u8>, data: Seq<u8>) -> Seq<u8>;

/// `sha2::Sha256::digest`: the result is the digest of `data`, 32 bytes
/// long.
#[verifier::external_body]
fn sha256(data: &[u8]) -> (out: Vec<u8>)
    ensures
        out@ == spec_sha256(data@),
        out@.len() == 32,
{
    Sha256::digest(data).to_vec()
}

/// `sha2::Sha512::digest`: the result is the digest of `data`, 64 bytes
/// long.
#[verifier::external_body]
fn sha512(data: &[u8]) -> (out: Vec<u8>)
    ensures
        out@ == spec_sha512(data@),
        out@.len() == 64,
{
    Sha512::digest(data).to_vec()
}

/// `hkdf::Hkdf::<Sha256>::extract` without a salt: the result is the
/// pseudorandom key, 32 bytes long.
#[verifier::external_body]
fn hkdf_extract_sha256(ikm: &[u8]) -> (prk: Vec<u8>)
    ensures
        prk@ == spec_hkdf_extract_sha256(ikm@),
        prk@.len() == 32,
{
    Hkdf::<Sha256>::extract(None, ikm).0.to_vec()
}

/// `hkdf::Hkdf::<Sha512>::extract` without a salt: the result is the
/// pseudorandom key, 64 bytes long.
#[verifier::external_body]
fn hkdf_extract_sha512(ikm: &[u8]) -> (prk: Vec<u8>)
    ensures
        prk@ == spec_hkdf_extract_sha512(ikm@),
        prk@.len() == 64,
{
    Hkdf::<Sha512>::extract(None, ikm).0.to_vec()
}

/// `hkdf::Hkdf::<Sha256>::from_prk` and then `expand`: the first refuses a
/// key shorter than a digest, the second a length above 255 digests;
/// otherwise the result is the output keying material, `len` bytes long.
#[verifier::external_body]
fn hkdf_expand_sha256(prk: &[u8], info: &[u8], len: usize) -> (okm: Option<Vec<u8>>)
    requires
        len <= 255 * 32,
    ensures
        okm is Some <==> prk@.len() >= 32,
        okm matches Some(k) ==> k@ == spec_hkdf_expand_sha256(prk@, info@, len as nat) && k@.len()
            == len,
{
    let hk = Hkdf::<Sha256>::from_prk(prk).ok()?;
    let mut okm = vec![0u8; len];
    hk.expand(info, &mut okm).ok()?;
    Some(okm)
}

/// `hkdf::Hkdf::<Sha512>::from_prk` and then `expand`: the first refuses a
/// key shorter than a digest, the second a length above 255 digests;
/// otherwise the result is the output keying material, `len` bytes long.
#[verifier::external_body]
fn hkdf_expand_sha512(prk: &[u8], info: &[u8], len: usize) -> (okm: Option<Vec<u8>>)
    requires
        len <= 255 * 64,
    ensures
        okm is Some <==> prk@.len() >= 64,
        okm matches Some(k) ==> k@ == spec_hkdf_expand_sha512(prk@, info@, len as nat) && k@.len()
            == len,
{
    let hk = Hkdf::<Sha512>::from_prk(prk).ok()?;
    let mut okm = vec![0u8; len];
    hk.expand(info, &mut okm).ok()?;
    Some(okm)
}

/// `hmac::Hmac::<Sha256>`: `new_from_slice`, which takes a key of any
/// length, then `update` and `finalize`. The result is the tag, 32 bytes
/// long.
#[verifier::external_body]
fn hmac_sha256(key: &[u8], data: &[u8]) -> (tag: Vec<u8>)
    ensures
        tag@ == spec_hmac_sha256(key@, data@),
        tag@.len() == 32,
{
    let mut mac = <Hmac<Sha256> as Mac>::new_from_slice(key).expect("HMAC takes any key");
    mac.update(data);
    mac.finalize().into_bytes().to_vec()
}

/// `hmac::Hmac::<Sha512>`: `new_from_slice`, which takes a key of any
/// length, then `update` and `finalize`. The result is the tag, 64 bytes
/// long.
#[verifier::external_body]
fn hmac_sha512(key: &[u8], data: &[u8]) -> (tag: Vec<u8>)
    ensures
        tag@ == spec_hmac_sha512(key@, data@),
        tag@.len() == 64,
{
    let mut mac = <Hmac<Sha512> as Mac>::new_from_slice(key).expect("HMAC takes any key");
    mac.update(data);
    mac.finalize().into_bytes().to_vec()
}

/// `subtle::ConstantTimeEq::ct_eq` on byte slices: true exactly when the
/// two hold the same bytes. Its running time depends on the lengths only.
#[verifier::external_body]
pub(crate) fn ct_eq(a: &[u8], b: &[u8]) -> (same: bool)
    ensures
        same == (a@ == b@),
{
    bool::from(a.ct_eq(b))
}

/// The digest of `data` under `alg`.
pub open spec fn spec_hash(alg: HashAlg, data: Seq<u8>) -> Seq<u8> {
    match alg {
        HashAlg::Sha256 => spec_sha256(data),
        HashAlg::Sha512 => spec_sha512(data),
    }
}

/// HKDF-Extract under `alg` with a salt of zeros.
pub open spec fn spec_hkdf_extract(alg: HashAlg, ikm: Seq<u8>) -> Seq<u8> {
    match alg {
        HashAlg::Sha256 => spec_hkdf_extract_sha256(ikm),
        HashAlg::Sha512 => spec_hkdf_extract_sha512(ikm),
    }
}

/// The greatest length that HKDF-Expand under `alg` gives out.
pub open spec fn hkdf_max_len(alg: HashAlg) -> nat {
    255 * alg.output_len()
}

/// HKDF-Expand under `alg`: `None` where the key is shorter than a digest
/// or more than 255 digests are asked for.
pub open spec fn spec_hkdf_expand(alg: HashAlg, prk: Seq<u8>, info: Seq<u8>, len: nat) -> Option<
    Seq<u8>,
> {
    if prk.len() < alg.output_len() || len > hkdf_max_len(alg) {
        None
    } else {
        Some(
            match alg {
                HashAlg::Sha256 => spec_hkdf_expand_sha256(prk, info, len),
                HashAlg::Sha512 => spec_hkdf_expand_sha512(prk, info, len),
            },
        )
    }
}

/// The HMAC tag of `data` under `key` and `alg`.
pub open spec fn spec_hmac(alg: HashAlg, key: Seq<u8>, data: Seq<u8>) -> Seq<u8> {
    match alg {
        HashAlg::Sha256 => spec_hmac_sha256(key, data),
        HashAlg::Sha512 => spec_hmac_sha512(key, data),
    }
}

/// The digest of `data`.
pub fn hash(alg: HashAlg, data: &[u8]) -> (out: Vec<u8>)
    ensures
        out@ == spec_hash(alg, data@),
        out@.len() == alg.output_len(),
{
    match alg {
        HashAlg::Sha256 => sha256(data),
        HashAlg::Sha512 => sha512(data),
    }
}

/// HKDF-Extract with a salt of zeros.
pub fn hkdf_extract(alg: HashAlg, ikm: &[u8]) -> (prk: Vec<u8>)
    ensures
        prk@ == spec_hkdf_extract(alg, ikm@),
        prk@.len() == alg.output_len(),
{
    match alg {
        HashAlg::Sha256 => hkdf_extract_sha256(ikm),
        HashAlg::Sha512 => hkdf_extract_sha512(ikm),
    }
}

/// HKDF-Expand: `len` bytes, or `None` where the key is too short or the
/// length too great.
pub fn hkdf_expand(alg: HashAlg, prk: &[u8], info: &[u8], len: usize) -> (okm: Option<Vec<u8>>)
    ensures
        okm is Some <==> spec_hkdf_expand(alg, prk@, info@, len as nat) is Some,
        okm matches Some(k) ==> Some(k@) == spec_hkdf_expand(alg, prk@, info@, len as nat)
            && k@.len() == len,
{
    if len > 255 * alg.output_size() {
        return None;
    }
    match alg {
        HashAlg::Sha256 => hkdf_expand_sha256(prk, info, len),
        HashAlg::Sha512 => hkdf_expand_sha512(prk, info, len),
    }
}

/// The HMAC tag of `data` under `key`.
pub fn hmac(alg: HashAlg, key: &[u8], data: &[u8]) -> (tag: Vec<u8>)
    ensures
        tag@ == spec_hmac(alg, key@, data@),
        tag@.len() == alg.output_len(),
{
    match alg {
        HashAlg::Sha256 => hmac_sha256(key, data),
        HashAlg::Sha512 => hmac_sha512(key, data),
    }
}

/// Whether `tag` is the HMAC tag of `data` under `key`, found in time that
/// does not depend on where the two tags differ.
pub fn hmac_verify(alg: HashAlg, key: &[u8], data: &[u8], tag: &[u8]) -> (ok: bool)
    ensures
        ok == (spec_hmac(alg, key@, data@) == tag@),
{
    let expected = hmac(alg, key, data);
    ct_eq(expected.as_slice(), tag)
}

} // verus!
