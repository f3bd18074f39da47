//! The envelope: the client's static key pair, sealed under a key derived
//! from the password and bound to the server's public key and to both
//! identities.
//!
//! The key pair itself is not stored. It is derived from the randomized
//! password and the envelope's nonce, so an envelope holds the nonce and
//! an authentication tag only.

use rand::rngs::StdRng;
use vstd::prelude::*;

use crate::bytes::{concat2, concat3, copy_of, copy_range, zero_bytes, zeros};
use crate::ciphersuite::{CipherSuite, NONCE_LEN};
use crate::errors::ProtocolError;
use crate::identifiers::{bytestrings_from_identifiers, ids_fit, spec_id_s, spec_id_u, Identifiers};
use crate::keypair::{spec_keypair, KeyPair, KeyPairView};
use crate::labels::{STR_AUTH_KEY, STR_EXPORT_KEY, STR_OPAQUE_DERIVE_AUTH_KEY_PAIR, STR_PRIVATE_KEY};
use crate::primitives::group::pk_valid;
use crate::primitives::hash::{ct_eq, hkdf_expand, hmac, spec_hkdf_expand, spec_hmac};
use crate::primitives::oprf::{hash_to_scalar, spec_hash_to_scalar};
use crate::primitives::rng::random_bytes;
use crate::secret::Secret;

verus! {

/// The mode of an envelope, a field that the wire format reserves.
#[derive(Clone, Copy, Debug, PartialEq, Eq, Structural)]
pub enum InnerEnvelopeMode {
    /// The mode of the dummy envelope that stands in for an unknown user.
    /// It is never opened.
    Zero,
    /// The mode of every sealed envelope.
    Internal,
}

impl InnerEnvelopeMode {
    /// The mode that a byte names: 1 names `Internal`, and no other byte
    /// names a mode that can be received.
    pub open spec fn spec_try_from(x: u8) -> Result<InnerEnvelopeMode, ProtocolError> {
        if x == 1 {
            Ok(InnerEnvelopeMode::Internal)
        } else {
            Err(ProtocolError::SerializationError)
        }
    }

    /// The mode that the byte `x` names.
    pub fn try_from(x: u8) -> (r: Result<InnerEnvelopeMode, ProtocolError>)
        ensures
            r == Self::spec_try_from(x),
    {
        match x {
            1 => Ok(InnerEnvelopeMode::Internal),
            _ => Err(ProtocolError::SerializationError),
        }
    }
}

/// An envelope: a nonce and the tag that authenticates it together with
/// the server's public key and the two identities.
#[derive(Debug)]
pub struct Envelope {
    pub mode: InnerEnvelopeMode,
    pub nonce: Vec<u8>,
    pub hmac: Vec<u8>,
}

/// What an envelope holds.
pub struct EnvelopeView {
    pub mode: InnerEnvelopeMode,
    pub nonce: Seq<u8>,
    pub hmac: Seq<u8>,
}

impl View for Envelope {
    type V = EnvelopeView;

    open spec fn view(&self) -> EnvelopeView {
        EnvelopeView { mode: self.mode, nonce: self.nonce@, hmac: self.hmac@ }
    }
}

impl EnvelopeView {
    /// The nonce and the tag have the lengths that the suite fixes.
    pub open spec fn wf(self, suite: CipherSuite) -> bool {
        &&& self.nonce.len() == NONCE_LEN
        &&& self.hmac.len() == suite.nh()
    }

    /// The wire form: the nonce, then the tag.
    pub open spec fn serialize(self) -> Seq<u8> {
        self.nonce + self.hmac
    }

    /// The envelope that stands in for an unknown user: `Zero` mode, and
    /// zeros for the nonce and the tag.
    pub open spec fn dummy(suite: CipherSuite) -> EnvelopeView {
        EnvelopeView {
            mode: InnerEnvelopeMode::Zero,
            nonce: zeros(NONCE_LEN as nat),
            hmac: zeros(suite.nh()),
        }
    }

    /// The envelope that a byte string is read as: `Internal` mode, the
    /// first 32 bytes as the nonce, the rest as the tag. A string of
    /// another length than an envelope's is refused.
    pub open spec fn deserialize(suite: CipherSuite, bytes: Seq<u8>) -> Result<
        EnvelopeView,
        ProtocolError,
    > {
        if bytes.len() != suite.envelope_len() {
            Err(ProtocolError::SerializationError)
        } else {
            Ok(
                EnvelopeView {
                    mode: InnerEnvelopeMode::Internal,
                    nonce: bytes.subrange(0, NONCE_LEN as int),
                    hmac: bytes.subrange(NONCE_LEN as int, bytes.len() as int),
                },
            )
        }
    }
}

/// An envelope that was opened: the key pair recovered from it, the export
/// key, and the identities that it was bound to.
#[derive(Debug)]
pub struct OpenedEnvelope {
    pub client_static_keypair: KeyPair,
    pub export_key: Vec<u8>,
    pub id_u: Vec<u8>,
    pub id_s: Vec<u8>,
}

/// What an opened envelope holds.
pub struct OpenedEnvelopeView {
    pub client_static_keypair: KeyPairView,
    pub export_key: Seq<u8>,
    pub id_u: Seq<u8>,
    pub id_s: Seq<u8>,
}

impl View for OpenedEnvelope {
    type V = OpenedEnvelopeView;

    open spec fn view(&self) -> OpenedEnvelopeView {
        OpenedEnvelopeView {
            client_static_keypair: self.client_static_keypair@,
            export_key: self.export_key@,
            id_u: self.id_u@,
            id_s: self.id_s@,
        }
    }
}

/// What is left of an envelope whose tag was verified: the export key.
#[derive(Debug)]
pub struct OpenedInnerEnvelope {
    pub export_key: Vec<u8>,
}

/// The data that an envelope authenticates besides its nonce:
/// `server_s_pk ∥ id_s ∥ id_u`, without length prefixes.
pub open spec fn spec_construct_aad(id_u: Seq<u8>, id_s: Seq<u8>, server_s_pk: Seq<u8>) -> Seq<u8> {
    server_s_pk + id_s + id_u
}

/// `HKDF-Expand(rp, nonce ∥ "AuthKey", Nh)`.
pub open spec fn spec_auth_key(suite: CipherSuite, rp: Seq<u8>, nonce: Seq<u8>) -> Option<Seq<u8>> {
    spec_hkdf_expand(suite.hash_of(), rp, nonce + STR_AUTH_KEY@, suite.nh())
}

/// `HKDF-Expand(rp, nonce ∥ "ExportKey", Nh)`.
pub open spec fn spec_export_key(suite: CipherSuite, rp: Seq<u8>, nonce: Seq<u8>) -> Option<
    Seq<u8>,
> {
    spec_hkdf_expand(suite.hash_of(), rp, nonce + STR_EXPORT_KEY@, suite.nh())
}

/// `HKDF-Expand(rp, nonce ∥ "PrivateKey", Nsk)`.
pub open spec fn spec_keypair_seed(suite: CipherSuite, rp: Seq<u8>, nonce: Seq<u8>) -> Option<
    Seq<u8>,
> {
    spec_hkdf_expand(suite.hash_of(), rp, nonce + STR_PRIVATE_KEY@, suite.nsk())
}

/// The client's static key pair: the seed is hashed to a scalar of the
/// OPRF group under the tag `"OPAQUE-DeriveAuthKeyPair"`, and the scalar
/// is read as a private key of the key-exchange group.
pub open spec fn spec_recover_keys(suite: CipherSuite, rp: Seq<u8>, nonce: Seq<u8>) -> Result<
    KeyPairView,
    ProtocolError,
> {
    match spec_keypair_seed(suite, rp, nonce) {
        None => Err(ProtocolError::HkdfError),
        Some(seed) => match spec_hash_to_scalar(
            suite.oprf,
            seed,
            STR_OPAQUE_DERIVE_AUTH_KEY_PAIR@,
        ) {
            None => Err(ProtocolError::InternalError),
            Some(sk) => spec_keypair(suite.ke_group, sk),
        },
    }
}

/// The envelope over `aad` and the export key:
/// the tag is `HMAC(auth_key, nonce ∥ aad)`.
pub open spec fn spec_seal_raw(
    suite: CipherSuite,
    rp: Seq<u8>,
    nonce: Seq<u8>,
    aad: Seq<u8>,
    mode: InnerEnvelopeMode,
) -> Result<(EnvelopeView, Seq<u8>), ProtocolError> {
    match (spec_auth_key(suite, rp, nonce), spec_export_key(suite, rp, nonce)) {
        (Some(auth_key), Some(export_key)) => Ok(
            (
                EnvelopeView {
                    mode,
                    nonce,
                    hmac: spec_hmac(suite.hash_of(), auth_key, nonce + aad),
                },
                export_key,
            ),
        ),
        _ => Err(ProtocolError::HkdfError),
    }
}

/// The data that the envelope of a key pair authenticates, given the
/// server's public key and the chosen identities.
pub open spec fn spec_aad_of(ids: Option<Identifiers>, client_s_pk: Seq<u8>, server_s_pk: Seq<u8>) -> Seq<
    u8,
> {
    spec_construct_aad(spec_id_u(ids, client_s_pk), spec_id_s(ids, server_s_pk), server_s_pk)
}

/// Sealing with the nonce `nonce`: the envelope, the client's public key
/// and the export key.
pub open spec fn spec_seal(
    suite: CipherSuite,
    nonce: Seq<u8>,
    rp: Seq<u8>,
    server_s_pk: Seq<u8>,
    ids: Option<Identifiers>,
) -> Result<(EnvelopeView, Seq<u8>, Seq<u8>), ProtocolError> {
    match spec_recover_keys(suite, rp, nonce) {
        Err(e) => Err(e),
        Ok(kp) => if !ids_fit(ids, kp.public, server_s_pk) {
            Err(ProtocolError::SerializationError)
        } else {
            match spec_seal_raw(
                suite,
                rp,
                nonce,
                spec_aad_of(ids, kp.public, server_s_pk),
                InnerEnvelopeMode::Internal,
            ) {
                Err(e) => Err(e),
                Ok((envelope, export_key)) => Ok((envelope, kp.public, export_key)),
            }
        },
    }
}

/// Verifying the tag of `envelope` over `aad`: the export key where the
/// tag is `HMAC(auth_key, nonce ∥ aad)`, `InvalidLogin` where it is not.
pub open spec fn spec_open_raw(
    suite: CipherSuite,
    envelope: EnvelopeView,
    rp: Seq<u8>,
    aad: Seq<u8>,
) -> Result<Seq<u8>, ProtocolError> {
    match (
        spec_auth_key(suite, rp, envelope.nonce),
        spec_export_key(suite, rp, envelope.nonce),
    ) {
        (Some(auth_key), Some(export_key)) => if spec_hmac(
            suite.hash_of(),
            auth_key,
            envelope.nonce + aad,
        ) == envelope.hmac {
            Ok(export_key)
        } else {
            Err(ProtocolError::InvalidLogin)
        },
        _ => Err(ProtocolError::HkdfError),
    }
}

/// Opening `envelope`: an envelope in another mode than `Internal` is
/// refused; then the key pair is derived and the tag verified over the
/// data rebuilt from the derived public key.
pub open spec fn spec_open(
    suite: CipherSuite,
    envelope: EnvelopeView,
    rp: Seq<u8>,
    server_s_pk: Seq<u8>,
    ids: Option<Identifiers>,
) -> Result<OpenedEnvelopeView, ProtocolError> {
    if envelope.mode != InnerEnvelopeMode::Internal {
        Err(ProtocolError::IncompatibleEnvelopeMode)
    } else {
        match spec_recover_keys(suite, rp, envelope.nonce) {
            Err(e) => Err(e),
            Ok(kp) => if !ids_fit(ids, kp.public, server_s_pk) {
                Err(ProtocolError::SerializationError)
            } else {
                match spec_open_raw(suite, envelope, rp, spec_aad_of(ids, kp.public, server_s_pk)) {
                    Err(e) => Err(e),
                    Ok(export_key) => Ok(
                        OpenedEnvelopeView {
                            client_static_keypair: kp,
                            export_key,
                            id_u: spec_id_u(ids, kp.public),
                            id_s: spec_id_s(ids, server_s_pk),
                        },
                    ),
                }
            },
        }
    }
}

impl Envelope {
    /// Seals the client's identity under the randomized password `rp`,
    /// with a nonce drawn from `rng`. The result is what `spec_seal` gives
    /// for the nonce that the envelope holds; a failure is one that
    /// `spec_seal` gives for some nonce.
    pub fn seal(
        suite: CipherSuite,
        rng: &mut StdRng,
        rp: &[u8],
        server_s_pk: &[u8],
        optional_ids: &Option<Identifiers>,
    ) -> (r: Result<(Envelope, Vec<u8>, Vec<u8>), ProtocolError>)
        ensures
            r matches Ok((envelope, client_s_pk, export_key)) ==> spec_seal(
                suite,
                envelope@.nonce,
                rp@,
                server_s_pk@,
                *optional_ids,
            ) == Ok::<_, ProtocolError>((envelope@, client_s_pk@, export_key@)) && envelope@.wf(
                suite,
            ) && pk_valid(suite.ke_group, client_s_pk@) && export_key@.len() == suite.nh(),
            r matches Err(e) ==> exists|nonce: Seq<u8>|
                nonce.len() == NONCE_LEN && #[trigger] spec_seal(
                    suite,
                    nonce,
                    rp@,
                    server_s_pk@,
                    *optional_ids,
                ) == Err::<(EnvelopeView, Seq<u8>, Seq<u8>), _>(e),
    {
        let nonce = random_bytes(rng, NONCE_LEN);
        Envelope::seal_with_nonce(suite, nonce.as_slice(), rp, server_s_pk, optional_ids)
    }

    /// Seals the client's identity under the randomized password `rp` with
    /// the given nonce: derives the key pair, settles the identities and
    /// authenticates `server_s_pk ∥ id_s ∥ id_u`.
    pub fn seal_with_nonce(
        suite: CipherSuite,
        nonce: &[u8],
        rp: &[u8],
        server_s_pk: &[u8],
        optional_ids: &Option<Identifiers>,
    ) -> (r: Result<(Envelope, Vec<u8>, Vec<u8>), ProtocolError>)
        requires
            nonce@.len() == NONCE_LEN,
        ensures
            r matches Ok((envelope, client_s_pk, export_key)) ==> spec_seal(
                suite,
                nonce@,
                rp@,
                server_s_pk@,
                *optional_ids,
            ) == Ok::<_, ProtocolError>((envelope@, client_s_pk@, export_key@)) && envelope@.wf(
                suite,
            ) && pk_valid(suite.ke_group, client_s_pk@) && export_key@.len() == suite.nh(),
            r matches Err(e) ==> spec_seal(suite, nonce@, rp@, server_s_pk@, *optional_ids) == Err::<
                (EnvelopeView, Seq<u8>, Seq<u8>),
                _,
            >(e),
    {
        let client_s_pk = build_inner_envelope_internal(suite, rp, nonce)?;
        let (id_u, id_s) = bytestrings_from_identifiers(
            optional_ids,
            client_s_pk.as_slice(),
            server_s_pk,
        )?;
        let aad = construct_aad(id_u.as_slice(), id_s.as_slice(), server_s_pk);
        let (envelope, export_key) = Envelope::seal_raw(
            suite,
            rp,
            nonce,
            aad.as_slice(),
            InnerEnvelopeMode::Internal,
        )?;
        Ok((envelope, client_s_pk, export_key))
    }

    /// Authenticates `aad` under the key derived from `rp` and `nonce`, and
    /// derives the export key. Fails with `HkdfError` exactly where `rp`
    /// is shorter than a digest.
    pub fn seal_raw(
        suite: CipherSuite,
        rp: &[u8],
        nonce: &[u8],
        aad: &[u8],
        mode: InnerEnvelopeMode,
    ) -> (r: Result<(Envelope, Vec<u8>), ProtocolError>)
        requires
            nonce@.len() == NONCE_LEN,
        ensures
            r is Ok <==> rp@.len() >= suite.nh(),
            r matches Ok((envelope, export_key)) ==> envelope@.wf(suite) && export_key@.len()
                == suite.nh() && spec_seal_raw(suite, rp@, nonce@, aad@, mode) == Ok::<
                _,
                ProtocolError,
            >((envelope@, export_key@)),
            r matches Err(e) ==> e == ProtocolError::HkdfError && spec_seal_raw(
                suite,
                rp@,
                nonce@,
                aad@,
                mode,
            ) == Err::<(EnvelopeView, Seq<u8>), _>(e),
    {
        let hash = suite.hash();
        let auth_info = concat2(nonce, STR_AUTH_KEY.as_slice());
        let export_info = concat2(nonce, STR_EXPORT_KEY.as_slice());
        let hmac_key = match hkdf_expand(hash, rp, auth_info.as_slice(), Self::hmac_key_size(suite)) {
            Some(k) => Secret::new(k),
            None => { return Err(ProtocolError::HkdfError); },
        };
        let export_key = match hkdf_expand(
            hash,
            rp,
            export_info.as_slice(),
            Self::export_key_size(suite),
        ) {
            Some(k) => k,
            None => { return Err(ProtocolError::HkdfError); },
        };
        let message = concat2(nonce, aad);
        let tag = hmac(hash, hmac_key.as_slice(), message.as_slice());
        Ok((Envelope { mode, nonce: copy_of(nonce), hmac: tag }, export_key))
    }

    /// Opens the envelope with the randomized password `rp`: recovers the
    /// key pair and verifies the tag over the server's public key and the
    /// identities.
    pub fn open(
        &self,
        suite: CipherSuite,
        rp: &[u8],
        server_s_pk: &[u8],
        optional_ids: &Option<Identifiers>,
    ) -> (r: Result<OpenedEnvelope, ProtocolError>)
        ensures
            r matches Ok(opened) ==> spec_open(suite, self@, rp@, server_s_pk@, *optional_ids)
                == Ok::<_, ProtocolError>(opened@) && opened@.client_static_keypair.wf(
                suite.ke_group,
            ),
            r matches Err(e) ==> spec_open(suite, self@, rp@, server_s_pk@, *optional_ids) == Err::<
                OpenedEnvelopeView,
                _,
            >(e),
    {
        let client_static_keypair = match self.mode {
            InnerEnvelopeMode::Zero => {
                return Err(ProtocolError::IncompatibleEnvelopeMode);
            },
            InnerEnvelopeMode::Internal => recover_keys_internal(suite, rp, self.nonce.as_slice())?,
        };
        let (id_u, id_s) = bytestrings_from_identifiers(
            optional_ids,
            client_static_keypair.public.as_slice(),
            server_s_pk,
        )?;
        let aad = construct_aad(id_u.as_slice(), id_s.as_slice(), server_s_pk);
        let opened = self.open_raw(suite, rp, aad.as_slice())?;
        Ok(OpenedEnvelope { client_static_keypair, export_key: opened.export_key, id_u, id_s })
    }

    /// Verifies the tag of the envelope over `aad` under the key derived
    /// from `rp`, in constant time, and derives the export key. Fails with
    /// `HkdfError` where `rp` is shorter than a digest, else with
    /// `InvalidLogin` where the tag is not `HMAC(auth_key, nonce ∥ aad)`.
    pub fn open_raw(&self, suite: CipherSuite, rp: &[u8], aad: &[u8]) -> (r: Result<
        OpenedInnerEnvelope,
        ProtocolError,
    >)
        ensures
            r matches Ok(opened) ==> spec_open_raw(suite, self@, rp@, aad@) == Ok::<
                _,
                ProtocolError,
            >(opened.export_key@),
            r matches Err(e) ==> spec_open_raw(suite, self@, rp@, aad@) == Err::<Seq<u8>, _>(e),
    {
        let hash = suite.hash();
        let auth_info = concat2(self.nonce.as_slice(), STR_AUTH_KEY.as_slice());
        let export_info = concat2(self.nonce.as_slice(), STR_EXPORT_KEY.as_slice());
        let hmac_key = match hkdf_expand(hash, rp, auth_info.as_slice(), Self::hmac_key_size(suite)) {
            Some(k) => Secret::new(k),
            None => { return Err(ProtocolError::HkdfError); },
        };
        let export_key = match hkdf_expand(
            hash,
            rp,
            export_info.as_slice(),
            Self::export_key_size(suite),
        ) {
            Some(k) => k,
            None => { return Err(ProtocolError::HkdfError); },
        };
        let message = concat2(self.nonce.as_slice(), aad);
        let tag = hmac(hash, hmac_key.as_slice(), message.as_slice());
        if !ct_eq(tag.as_slice(), self.hmac.as_slice()) {
            return Err(ProtocolError::InvalidLogin);
        }
        Ok(OpenedInnerEnvelope { export_key })
    }

    /// The envelope that stands in for an unknown user. It serializes to
    /// zeros, as many as an envelope has bytes.
    pub fn dummy(suite: CipherSuite) -> (envelope: Envelope)
        ensures
            envelope@ == EnvelopeView::dummy(suite),
            envelope@.wf(suite),
            envelope@.serialize() == zeros(suite.envelope_len()),
    {
        Envelope {
            mode: InnerEnvelopeMode::Zero,
            nonce: zero_bytes(NONCE_LEN),
            hmac: zero_bytes(suite.hash_size()),
        }
    }

    /// Length of the key of the tag.
    pub fn hmac_key_size(suite: CipherSuite) -> (n: usize)
        ensures
            n == suite.nh(),
    {
        suite.hash_size()
    }

    /// Length of the export key.
    pub fn export_key_size(suite: CipherSuite) -> (n: usize)
        ensures
            n == suite.nh(),
    {
        suite.hash_size()
    }

    /// Length of a serialized envelope.
    pub fn len(suite: CipherSuite) -> (n: usize)
        ensures
            n == suite.envelope_len(),
    {
        suite.hash_size() + NONCE_LEN
    }

    /// The wire form: the nonce, then the tag.
    pub fn serialize(&self) -> (out: Vec<u8>)
        ensures
            out@ == self@.serialize(),
    {
        concat2(self.nonce.as_slice(), self.hmac.as_slice())
    }

    /// Reads an envelope from its wire form. Fails with
    /// `SerializationError` exactly where `bytes` has another length than
    /// an envelope of the suite.
    pub fn deserialize(suite: CipherSuite, bytes: &[u8]) -> (r: Result<Envelope, ProtocolError>)
        ensures
            r is Ok <==> bytes@.len() == suite.envelope_len(),
            r matches Ok(envelope) ==> EnvelopeView::deserialize(suite, bytes@) == Ok::<
                _,
                ProtocolError,
            >(envelope@) && envelope@.wf(suite),
            r matches Err(e) ==> e == ProtocolError::SerializationError,
    {
        let mode = InnerEnvelopeMode::Internal;
        if bytes.len() < NONCE_LEN {
            return Err(ProtocolError::SerializationError);
        }
        let nonce = copy_range(bytes, 0, NONCE_LEN);
        let remainder = copy_range(bytes, NONCE_LEN, bytes.len());
        if remainder.len() != Self::hmac_key_size(suite) {
            return Err(ProtocolError::SerializationError);
        }
        Ok(Envelope { mode, nonce, hmac: remainder })
    }
}

/// The public key of the client's static key pair, derived from the
/// randomized password and the nonce.
pub fn build_inner_envelope_internal(suite: CipherSuite, rp: &[u8], nonce: &[u8]) -> (r: Result<
    Vec<u8>,
    ProtocolError,
>)
    ensures
        r matches Ok(pk) ==> spec_recover_keys(suite, rp@, nonce@) matches Ok(kp) && kp.public
            == pk@ && kp.wf(suite.ke_group),
        r matches Err(e) ==> spec_recover_keys(suite, rp@, nonce@) == Err::<KeyPairView, _>(e),
{
    let client_static_keypair = recover_keys_internal(suite, rp, nonce)?;
    Ok(copy_of(client_static_keypair.public.as_slice()))
}

/// The client's static key pair, derived from the randomized password and
/// the nonce. Fails with `HkdfError` where `rp` is shorter than a digest,
/// with `InternalError` where the seed cannot be hashed to a scalar, and
/// with `SerializationError` where the scalar is no private key of the
/// key-exchange group.
pub fn recover_keys_internal(suite: CipherSuite, rp: &[u8], nonce: &[u8]) -> (r: Result<
    KeyPair,
    ProtocolError,
>)
    ensures
        r matches Ok(kp) ==> spec_recover_keys(suite, rp@, nonce@) == Ok::<_, ProtocolError>(kp@)
            && kp@.wf(suite.ke_group),
        r matches Err(e) ==> spec_recover_keys(suite, rp@, nonce@) == Err::<KeyPairView, _>(e),
{
    let info = concat2(nonce, STR_PRIVATE_KEY.as_slice());
    let keypair_seed = match hkdf_expand(
        suite.hash(),
        rp,
        info.as_slice(),
        suite.ke_group.sk_size(),
    ) {
        Some(seed) => Secret::new(seed),
        None => { return Err(ProtocolError::HkdfError); },
    };
    let scalar = match hash_to_scalar(
        suite.oprf,
        keypair_seed.as_slice(),
        STR_OPAQUE_DERIVE_AUTH_KEY_PAIR.as_slice(),
    ) {
        Some(s) => Secret::new(s),
        None => { return Err(ProtocolError::InternalError); },
    };
    KeyPair::from_private_key_slice(suite.ke_group, scalar.as_slice())
}

/// `server_s_pk ∥ id_s ∥ id_u`: the data that an envelope authenticates
/// besides its nonce.
pub fn construct_aad(id_u: &[u8], id_s: &[u8], server_s_pk: &[u8]) -> (aad: Vec<u8>)
    ensures
        aad@ == spec_construct_aad(id_u@, id_s@, server_s_pk@),
{
    concat3(server_s_pk, id_s, id_u)
}

} // verus!
