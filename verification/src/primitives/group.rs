//! The key-exchange groups: ristretto255, curve25519 and NIST P-256.
//!
//! Scalars and group elements are handled in their fixed-length
//! serialized form. On ristretto255 and P-256 a private key is the
//! canonical encoding of a scalar other than zero. On curve25519 a private
//! key is any 32 bytes that are not zero modulo the order of the base
//! point, and a point is given by its Montgomery coordinate.

use curve25519_dalek::montgomery::MontgomeryPoint;
use curve25519_dalek::scalar::Scalar;
use p256::NistP256;
use rand::rngs::StdRng;
use voprf::{Group, Ristretto255};
use vstd::prelude::*;

use crate::ciphersuite::KeGroup;

verus! {

/// Whether 32 bytes are the canonical encoding of a ristretto255 element
/// other than the identity.
pub uninterp spec fn spec_ristretto255_element_ok(bytes: Seq<u8>) -> bool;

/// Whether 32 bytes are the canonical encoding of a ristretto255 scalar
/// other than zero.
pub uninterp spec fn spec_ristretto255_scalar_ok(bytes: Seq<u8>) -> bool;

/// The encoding of the ristretto255 base point times the scalar `sk`.
pub uninterp spec fn spec_ristretto255_mul_base(sk: Seq<u8>) -> Seq<u8>;

/// The encoding of the ristretto255 element `pk` times the scalar `sk`.
pub uninterp spec fn spec_ristretto255_mul(sk: Seq<u8>, pk: Seq<u8>) -> Seq<u8>;

/// Whether 33 bytes are a SEC1 encoding, compressed or compact, of a point
/// of P-256 other than the identity.
pub uninterp spec fn spec_p256_element_ok(bytes: Seq<u8>) -> bool;

/// Whether 32 bytes are the big-endian encoding of a P-256 scalar other
/// than zero.
pub uninterp spec fn spec_p256_scalar_ok(bytes: Seq<u8>) -> bool;

/// The encoding of the P-256 generator times the scalar `sk`.
pub uninterp spec fn spec_p256_mul_base(sk: Seq<u8>) -> Seq<u8>;

/// The encoding of the P-256 point `pk` times the scalar `sk`.
pub uninterp spec fn spec_p256_mul(sk: Seq<u8>, pk: Seq<u8>) -> Seq<u8>;

/// Whether 32 bytes, read as a coordinate modulo 2^255 - 19, are the
/// Montgomery coordinate of a point of curve25519 in the subgroup of prime
/// order. No coordinate stands for the identity of that subgroup.
pub uninterp spec fn spec_curve25519_point_ok(bytes: Seq<u8>) -> bool;

/// Whether 32 bytes, read as a little-endian integer, are zero modulo the
/// order of the curve25519 base point.
pub uninterp spec fn spec_curve25519_scalar_is_zero(bytes: Seq<u8>) -> bool;

/// The Montgomery form of the curve25519 base point times the scalar `sk`.
pub uninterp spec fn spec_curve25519_mul_base(sk: Seq<u8>) -> Seq<u8>;

/// The curve25519 point `pk` times the scalar `sk`, in Montgomery form.
pub uninterp spec fn spec_curve25519_mul(sk: Seq<u8>, pk: Seq<u8>) -> Seq<u8>;

/// `voprf::Group::deserialize_elem` of `voprf::Ristretto255`: whether it
/// accepts the bytes.
#[verifier::external_body]
pub(crate) fn ristretto255_element_ok(bytes: &[u8]) -> (ok: bool)
    requires
        bytes@.len() == 32,
    ensures
        ok == spec_ristretto255_element_ok(bytes@),
{
    <Ristretto255 as Group>::deserialize_elem(bytes).is_ok()
}

/// `voprf::Group::base_elem` of `voprf::Ristretto255` times the scalar that
/// `deserialize_scalar` reads from `sk`, serialized. `None` exactly where
/// the scalar is refused. The product of the base point and a scalar other
/// than zero is an element other than the identity.
#[verifier::external_body]
pub(crate) fn ristretto255_mul_base(sk: &[u8]) -> (pk: Option<Vec<u8>>)
    requires
        sk@.len() == 32,
    ensures
        pk is Some <==> spec_ristretto255_scalar_ok(sk@),
        pk matches Some(p) ==> p@ == spec_ristretto255_mul_base(sk@) && p@.len() == 32
            && spec_ristretto255_element_ok(p@),
{
    let s = <Ristretto255 as Group>::deserialize_scalar(sk).ok()?;
    Some(<Ristretto255 as Group>::serialize_elem(<Ristretto255 as Group>::base_elem() * &s).to_vec())
}

/// The element that `voprf::Group::deserialize_elem` of `voprf::Ristretto255`
/// reads from `pk` times the scalar that `deserialize_scalar` reads from
/// `sk`, serialized. `None` exactly where either is refused.
#[verifier::external_body]
pub(crate) fn ristretto255_mul(sk: &[u8], pk: &[u8]) -> (out: Option<Vec<u8>>)
    requires
        sk@.len() == 32,
        pk@.len() == 32,
    ensures
        out is Some <==> (spec_ristretto255_scalar_ok(sk@) && spec_ristretto255_element_ok(pk@)),
        out matches Some(p) ==> p@ == spec_ristretto255_mul(sk@, pk@) && p@.len() == 32,
{
    let s = <Ristretto255 as Group>::deserialize_scalar(sk).ok()?;
    let p = <Ristretto255 as Group>::deserialize_elem(pk).ok()?;
    Some(<Ristretto255 as Group>::serialize_elem(p * &s).to_vec())
}

/// `voprf::Group::random_scalar` of `voprf::Ristretto255`, serialized: 32
/// bytes.
#[verifier::external_body]
pub(crate) fn ristretto255_random_scalar(rng: &mut StdRng) -> (sk: Vec<u8>)
    ensures
        sk@.len() == 32,
{
    <Ristretto255 as Group>::serialize_scalar(<Ristretto255 as Group>::random_scalar(rng)).to_vec()
}

/// `voprf::Group::deserialize_elem` of `p256::NistP256`: whether it accepts
/// the bytes. It takes the compact form, which starts with 0x05, as well
/// as the compressed one.
#[verifier::external_body]
pub(crate) fn p256_element_ok(bytes: &[u8]) -> (ok: bool)
    requires
        bytes@.len() == 33,
    ensures
        ok == spec_p256_element_ok(bytes@),
{
    <NistP256 as Group>::deserialize_elem(bytes).is_ok()
}

/// `voprf::Group::base_elem` of `p256::NistP256` times the scalar that
/// `deserialize_scalar` reads from `sk`, serialized. `None` exactly where
/// the scalar is refused. The product of the generator and a scalar other
/// than zero is a point other than the identity, and it is serialized in
/// compressed form.
#[verifier::external_body]
pub(crate) fn p256_mul_base(sk: &[u8]) -> (pk: Option<Vec<u8>>)
    requires
        sk@.len() == 32,
    ensures
        pk is Some <==> spec_p256_scalar_ok(sk@),
        pk matches Some(p) ==> p@ == spec_p256_mul_base(sk@) && p@.len() == 33
            && spec_p256_element_ok(p@) && sec1_compressed(p@),
{
    let s = <NistP256 as Group>::deserialize_scalar(sk).ok()?;
    Some(<NistP256 as Group>::serialize_elem(<NistP256 as Group>::base_elem() * &s).to_vec())
}

/// The point that `voprf::Group::deserialize_elem` of `p256::NistP256`
/// reads from `pk` times the scalar that `deserialize_scalar` reads from
/// `sk`, serialized. `None` exactly where either is refused.
#[verifier::external_body]
pub(crate) fn p256_mul(sk: &[u8], pk: &[u8]) -> (out: Option<Vec<u8>>)
    requires
        sk@.len() == 32,
        pk@.len() == 33,
    ensures
        out is Some <==> (spec_p256_scalar_ok(sk@) && spec_p256_element_ok(pk@)),
        out matches Some(p) ==> p@ == spec_p256_mul(sk@, pk@) && p@.len() == 33,
{
    let s = <NistP256 as Group>::deserialize_scalar(sk).ok()?;
    let p = <NistP256 as Group>::deserialize_elem(pk).ok()?;
    Some(<NistP256 as Group>::serialize_elem(p * &s).to_vec())
}

/// `voprf::Group::random_scalar` of `p256::NistP256`, serialized: 32 bytes.
#[verifier::external_body]
pub(crate) fn p256_random_scalar(rng: &mut StdRng) -> (sk: Vec<u8>)
    ensures
        sk@.len() == 32,
{
    <NistP256 as Group>::serialize_scalar(<NistP256 as Group>::random_scalar(rng)).to_vec()
}

/// `curve25519_dalek::montgomery::MontgomeryPoint::to_edwards`, which
/// refuses a coordinate of the twist, and
/// `curve25519_dalek::edwards::EdwardsPoint::is_torsion_free` on what it
/// yields.
#[verifier::external_body]
pub(crate) fn curve25519_point_ok(bytes: &[u8]) -> (ok: bool)
    requires
        bytes@.len() == 32,
    ensures
        ok == spec_curve25519_point_ok(bytes@),
{
    match MontgomeryPoint(bytes.try_into().expect("32 bytes")).to_edwards(0) {
        Some(point) => point.is_torsion_free(),
        None => false,
    }
}

/// `curve25519_dalek::scalar::Scalar::from_bytes_mod_order`, compared with
/// `Scalar::ZERO`.
#[verifier::external_body]
pub(crate) fn curve25519_scalar_is_zero(sk: &[u8]) -> (zero: bool)
    requires
        sk@.len() == 32,
    ensures
        zero == spec_curve25519_scalar_is_zero(sk@),
{
    Scalar::from_bytes_mod_order(sk.try_into().expect("32 bytes")) == Scalar::ZERO
}

/// `curve25519_dalek::montgomery::MontgomeryPoint::mul_base` on the scalar
/// that `Scalar::from_bytes_mod_order` reads from `sk`: 32 bytes. The
/// product of the base point and a scalar other than zero is a point of
/// the subgroup of prime order.
#[verifier::external_body]
pub(crate) fn curve25519_mul_base(sk: &[u8]) -> (pk: Vec<u8>)
    requires
        sk@.len() == 32,
    ensures
        pk@ == spec_curve25519_mul_base(sk@),
        pk@.len() == 32,
        !spec_curve25519_scalar_is_zero(sk@) ==> spec_curve25519_point_ok(pk@),
{
    let s = Scalar::from_bytes_mod_order(sk.try_into().expect("32 bytes"));
    MontgomeryPoint::mul_base(&s).to_bytes().to_vec()
}

/// The `curve25519_dalek::montgomery::MontgomeryPoint` with the coordinate
/// `pk`, times the scalar that `Scalar::from_bytes_mod_order` reads from
/// `sk`: 32 bytes.
#[verifier::external_body]
pub(crate) fn curve25519_mul(sk: &[u8], pk: &[u8]) -> (out: Vec<u8>)
    requires
        sk@.len() == 32,
        pk@.len() == 32,
    ensures
        out@ == spec_curve25519_mul(sk@, pk@),
        out@.len() == 32,
{
    let s = Scalar::from_bytes_mod_order(sk.try_into().expect("32 bytes"));
    (&MontgomeryPoint(pk.try_into().expect("32 bytes")) * &s).to_bytes().to_vec()
}

/// `curve25519_dalek::scalar::Scalar::random`, serialized: 32 bytes.
#[verifier::external_body]
pub(crate) fn curve25519_random_scalar(rng: &mut StdRng) -> (sk: Vec<u8>)
    ensures
        sk@.len() == 32,
{
    Scalar::random(rng).to_bytes().to_vec()
}

/// Whether a string starts as the compressed SEC1 form of a point does:
/// with 0x02 or 0x03.
pub open spec fn sec1_compressed(bytes: Seq<u8>) -> bool {
    bytes.len() > 0 && (bytes[0] == 2 || bytes[0] == 3)
}

/// Whether 33 bytes are the encoding of a point of P-256 that this library
/// takes: the compressed SEC1 form of a point other than the identity.
/// The compact form is refused, so that a point has one encoding.
pub open spec fn p256_point_valid(bytes: Seq<u8>) -> bool {
    sec1_compressed(bytes) && spec_p256_element_ok(bytes)
}

/// Whether `pk` is the encoding of a public key of `group`: of the right
/// length, and the encoding of an element of the group of prime order
/// other than the identity.
pub open spec fn pk_valid(group: KeGroup, pk: Seq<u8>) -> bool {
    pk.len() == group.pk_len() && match group {
        KeGroup::Ristretto255 => spec_ristretto255_element_ok(pk),
        KeGroup::Curve25519 => spec_curve25519_point_ok(pk),
        KeGroup::P256 => p256_point_valid(pk),
    }
}

/// Whether `sk` is the encoding of a private key of `group`: of the right
/// length, accepted by the group, and not zero.
pub open spec fn sk_valid(group: KeGroup, sk: Seq<u8>) -> bool {
    sk.len() == group.sk_len() && match group {
        KeGroup::Ristretto255 => spec_ristretto255_scalar_ok(sk),
        KeGroup::Curve25519 => !spec_curve25519_scalar_is_zero(sk),
        KeGroup::P256 => spec_p256_scalar_ok(sk),
    }
}

/// The public key that belongs to the private key `sk`: the generator
/// times `sk`.
pub open spec fn spec_public_key(group: KeGroup, sk: Seq<u8>) -> Seq<u8> {
    match group {
        KeGroup::Ristretto255 => spec_ristretto255_mul_base(sk),
        KeGroup::Curve25519 => spec_curve25519_mul_base(sk),
        KeGroup::P256 => spec_p256_mul_base(sk),
    }
}

/// The Diffie-Hellman value of a private and a public key: `pk` times `sk`.
pub open spec fn spec_diffie_hellman(group: KeGroup, sk: Seq<u8>, pk: Seq<u8>) -> Seq<u8> {
    match group {
        KeGroup::Ristretto255 => spec_ristretto255_mul(sk, pk),
        KeGroup::Curve25519 => spec_curve25519_mul(sk, pk),
        KeGroup::P256 => spec_p256_mul(sk, pk),
    }
}

/// Whether 33 bytes are the compressed SEC1 form of a point of P-256 other
/// than the identity.
pub fn is_p256_point(bytes: &[u8]) -> (ok: bool)
    requires
        bytes@.len() == 33,
    ensures
        ok == p256_point_valid(bytes@),
{
    (bytes[0] == 2 || bytes[0] == 3) && p256_element_ok(bytes)
}

/// Whether `pk` is the encoding of a public key of `group`.
pub fn is_public_key(group: KeGroup, pk: &[u8]) -> (ok: bool)
    ensures
        ok == pk_valid(group, pk@),
{
    if pk.len() != group.pk_size() {
        return false;
    }
    match group {
        KeGroup::Ristretto255 => ristretto255_element_ok(pk),
        KeGroup::Curve25519 => curve25519_point_ok(pk),
        KeGroup::P256 => is_p256_point(pk),
    }
}

/// The public key of the private key `sk`; `None` exactly where `sk` is no
/// private key of `group`. The result is a public key of `group`.
pub fn public_key(group: KeGroup, sk: &[u8]) -> (pk: Option<Vec<u8>>)
    ensures
        pk is Some <==> sk_valid(group, sk@),
        pk matches Some(p) ==> p@ == spec_public_key(group, sk@) && pk_valid(group, p@),
{
    if sk.len() != group.sk_size() {
        return None;
    }
    match group {
        KeGroup::Ristretto255 => ristretto255_mul_base(sk),
        KeGroup::Curve25519 => {
            if curve25519_scalar_is_zero(sk) {
                None
            } else {
                Some(curve25519_mul_base(sk))
            }
        },
        KeGroup::P256 => p256_mul_base(sk),
    }
}

/// The Diffie-Hellman value of `sk` and `pk`, `Npk` bytes; `None` exactly
/// where one of them is no key of `group`.
pub fn diffie_hellman(group: KeGroup, sk: &[u8], pk: &[u8]) -> (out: Option<Vec<u8>>)
    ensures
        out is Some <==> sk_valid(group, sk@) && pk_valid(group, pk@),
        out matches Some(d) ==> d@ == spec_diffie_hellman(group, sk@, pk@) && d@.len()
            == group.pk_len(),
{
    if sk.len() != group.sk_size() || !is_public_key(group, pk) {
        return None;
    }
    match group {
        KeGroup::Ristretto255 => ristretto255_mul(sk, pk),
        KeGroup::Curve25519 => {
            if curve25519_scalar_is_zero(sk) {
                None
            } else {
                Some(curve25519_mul(sk, pk))
            }
        },
        KeGroup::P256 => p256_mul(sk, pk),
    }
}

/// A scalar drawn from `rng`, `Nsk` bytes. Whether it is a private key is
/// for the caller to find out.
pub fn random_scalar(group: KeGroup, rng: &mut StdRng) -> (sk: Vec<u8>)
    ensures
        sk@.len() == group.sk_len(),
{
    match group {
        KeGroup::Ristretto255 => ristretto255_random_scalar(rng),
        KeGroup::Curve25519 => curve25519_random_scalar(rng),
        KeGroup::P256 => p256_random_scalar(rng),
    }
}

} // verus!
