//! The 3DH key exchange: three Diffie-Hellman values, of the two ephemeral
//! keys and of each ephemeral key with the other side's static key, feed a
//! key schedule that is bound to the transcript of the handshake.

use rand::rngs::StdRng;
use vstd::prelude::*;

use crate::bytes::{append, concat2, concat3, copy_of, copy_range, encode_len_2, i2osp_2, length_prefixed};
use crate::ciphersuite::{CipherSuite, NONCE_LEN};
use crate::errors::ProtocolError;
use crate::identifiers::MAX_PREFIXED_LEN;
use crate::key_exchange::traits::{FromBytes, KeyExchange, ToBytes};
use crate::keypair::KeyPair;
use crate::labels::{
    STR_CLIENT_MAC,
    STR_HANDSHAKE_SECRET,
    STR_OPAQUE,
    STR_SERVER_MAC,
    STR_SESSION_KEY,
};
use crate::primitives::group::{
    diffie_hellman,
    is_public_key,
    pk_valid,
    public_key,
    sk_valid,
    spec_diffie_hellman,
    spec_public_key,
};
use crate::primitives::hash::{
    ct_eq,
    hash,
    hkdf_expand,
    hkdf_extract,
    hmac,
    spec_hash,
    spec_hkdf_expand,
    spec_hkdf_extract,
    spec_hmac,
};
use crate::primitives::rng::{erase, random_bytes};
use crate::secret::Secret;

verus! {

/// What the client keeps between its first and its third message. It is
/// overwritten with zeros when it is dropped.
#[derive(Clone, Debug)]
pub struct Ke1State {
    pub client_e_sk: Vec<u8>,
    pub client_nonce: Vec<u8>,
}

/// What the server keeps between its message and the client's answer. It
/// is overwritten with zeros when it is dropped.
#[derive(Clone, Debug)]
pub struct Ke2State {
    pub session_key: Vec<u8>,
    pub expected_client_mac: Vec<u8>,
    pub handshake_secret: Vec<u8>,
}

/// The first message: the client's nonce and ephemeral public key.
#[derive(Clone, Debug)]
pub struct Ke1Message {
    pub client_nonce: Vec<u8>,
    pub client_e_pk: Vec<u8>,
}

/// The second message: the server's nonce, its ephemeral public key, and
/// its MAC over the transcript.
#[derive(Clone, Debug)]
pub struct Ke2Message {
    pub server_nonce: Vec<u8>,
    pub server_e_pk: Vec<u8>,
    pub mac: Vec<u8>,
}

/// The third message: the client's MAC over the transcript.
#[derive(Clone, Debug)]
pub struct Ke3Message {
    pub mac: Vec<u8>,
}

/// What a `Ke1State` holds.
pub struct Ke1StateView {
    pub client_e_sk: Seq<u8>,
    pub client_nonce: Seq<u8>,
}

/// What a `Ke2State` holds.
pub struct Ke2StateView {
    pub session_key: Seq<u8>,
    pub expected_client_mac: Seq<u8>,
    pub handshake_secret: Seq<u8>,
}

/// What a `Ke1Message` holds.
pub struct Ke1MessageView {
    pub client_nonce: Seq<u8>,
    pub client_e_pk: Seq<u8>,
}

/// What a `Ke2Message` holds.
pub struct Ke2MessageView {
    pub server_nonce: Seq<u8>,
    pub server_e_pk: Seq<u8>,
    pub mac: Seq<u8>,
}

/// What a `Ke3Message` holds.
pub struct Ke3MessageView {
    pub mac: Seq<u8>,
}

impl View for Ke1State {
    type V = Ke1StateView;

    open spec fn view(&self) -> Ke1StateView {
        Ke1StateView { client_e_sk: self.client_e_sk@, client_nonce: self.client_nonce@ }
    }
}

impl View for Ke2State {
    type V = Ke2StateView;

    open spec fn view(&self) -> Ke2StateView {
        Ke2StateView {
            session_key: self.session_key@,
            expected_client_mac: self.expected_client_mac@,
            handshake_secret: self.handshake_secret@,
        }
    }
}

impl View for Ke1Message {
    type V = Ke1MessageView;

    open spec fn view(&self) -> Ke1MessageView {
        Ke1MessageView { client_nonce: self.client_nonce@, client_e_pk: self.client_e_pk@ }
    }
}

impl View for Ke2Message {
    type V = Ke2MessageView;

    open spec fn view(&self) -> Ke2MessageView {
        Ke2MessageView {
            server_nonce: self.server_nonce@,
            server_e_pk: self.server_e_pk@,
            mac: self.mac@,
        }
    }
}

impl View for Ke3Message {
    type V = Ke3MessageView;

    open spec fn view(&self) -> Ke3MessageView {
        Ke3MessageView { mac: self.mac@ }
    }
}

impl Ke1StateView {
    /// A private key of the group and a nonce.
    pub open spec fn wf(self, suite: CipherSuite) -> bool {
        &&& sk_valid(suite.ke_group, self.client_e_sk)
        &&& self.client_nonce.len() == NONCE_LEN
    }

    /// The stored form: the private key, then the nonce.
    pub open spec fn serialize(self) -> Seq<u8> {
        self.client_e_sk + self.client_nonce
    }

    /// The state that a string, accepted as one, is read as.
    pub open spec fn parse(suite: CipherSuite, bytes: Seq<u8>) -> Ke1StateView {
        Ke1StateView {
            client_e_sk: bytes.subrange(0, suite.nsk() as int),
            client_nonce: bytes.subrange(suite.nsk() as int, bytes.len() as int),
        }
    }
}

impl Ke2StateView {
    /// Three strings of the length of a digest.
    pub open spec fn wf(self, suite: CipherSuite) -> bool {
        &&& self.session_key.len() == suite.nh()
        &&& self.expected_client_mac.len() == suite.nh()
        &&& self.handshake_secret.len() == suite.nh()
    }

    /// The stored form: the session key, the MAC that is expected of the
    /// client, and the handshake secret.
    pub open spec fn serialize(self) -> Seq<u8> {
        self.session_key + self.expected_client_mac + self.handshake_secret
    }

    /// The state that a string, accepted as one, is read as.
    pub open spec fn parse(suite: CipherSuite, bytes: Seq<u8>) -> Ke2StateView {
        Ke2StateView {
            session_key: bytes.subrange(0, suite.nh() as int),
            expected_client_mac: bytes.subrange(suite.nh() as int, 2 * suite.nh() as int),
            handshake_secret: bytes.subrange(2 * suite.nh() as int, bytes.len() as int),
        }
    }
}

impl Ke1MessageView {
    /// A nonce and a public key of the group.
    pub open spec fn wf(self, suite: CipherSuite) -> bool {
        &&& self.client_nonce.len() == NONCE_LEN
        &&& pk_valid(suite.ke_group, self.client_e_pk)
    }

    /// The wire form: the nonce, then the key share.
    pub open spec fn serialize(self) -> Seq<u8> {
        self.client_nonce + self.client_e_pk
    }

    /// The message that a string, accepted as one, is read as.
    pub open spec fn parse(bytes: Seq<u8>) -> Ke1MessageView {
        Ke1MessageView {
            client_nonce: bytes.subrange(0, NONCE_LEN as int),
            client_e_pk: bytes.subrange(NONCE_LEN as int, bytes.len() as int),
        }
    }
}

impl Ke2MessageView {
    /// A nonce, a public key of the group and a tag.
    pub open spec fn wf(self, suite: CipherSuite) -> bool {
        &&& self.server_nonce.len() == NONCE_LEN
        &&& pk_valid(suite.ke_group, self.server_e_pk)
        &&& self.mac.len() == suite.nh()
    }

    /// The wire form: the nonce, the key share, the tag.
    pub open spec fn serialize(self) -> Seq<u8> {
        self.server_nonce + self.server_e_pk + self.mac
    }

    /// The message that a string, accepted as one, is read as.
    pub open spec fn parse(suite: CipherSuite, bytes: Seq<u8>) -> Ke2MessageView {
        Ke2MessageView {
            server_nonce: bytes.subrange(0, NONCE_LEN as int),
            server_e_pk: bytes.subrange(NONCE_LEN as int, NONCE_LEN + suite.npk() as int),
            mac: bytes.subrange(NONCE_LEN + suite.npk() as int, bytes.len() as int),
        }
    }
}

impl Ke3MessageView {
    /// A tag.
    pub open spec fn wf(self, suite: CipherSuite) -> bool {
        self.mac.len() == suite.nh()
    }

    /// The wire form: the tag.
    pub open spec fn serialize(self) -> Seq<u8> {
        self.mac
    }
}

impl ToBytes for Ke1State {
    open spec fn spec_to_bytes(&self) -> Seq<u8> {
        self@.serialize()
    }

    fn to_bytes(&self) -> (out: Vec<u8>) {
        concat2(self.client_e_sk.as_slice(), self.client_nonce.as_slice())
    }
}

impl FromBytes for Ke1State {
    /// A private key of the group and 32 more bytes.
    open spec fn accepts(suite: CipherSuite, input: Seq<u8>) -> bool {
        &&& input.len() == suite.nsk() + NONCE_LEN
        &&& sk_valid(suite.ke_group, input.subrange(0, suite.nsk() as int))
    }

    open spec fn wire(&self) -> Seq<u8> {
        self@.serialize()
    }

    fn from_bytes(suite: CipherSuite, input: &[u8]) -> (r: Result<Self, ProtocolError>)
        ensures
            r matches Ok(state) ==> state@ == Ke1StateView::parse(suite, input@) && state@.wf(suite),
    {
        let key_len = suite.ke_group.sk_size();
        if input.len() != key_len + NONCE_LEN {
            return Err(ProtocolError::SerializationError);
        }
        let client_e_sk = copy_range(input, 0, key_len);
        let client_nonce = copy_range(input, key_len, input.len());
        if public_key(suite.ke_group, client_e_sk.as_slice()).is_none() {
            return Err(ProtocolError::SerializationError);
        }
        Ok(Ke1State { client_e_sk, client_nonce })
    }
}

impl ToBytes for Ke2State {
    open spec fn spec_to_bytes(&self) -> Seq<u8> {
        self@.serialize()
    }

    fn to_bytes(&self) -> (out: Vec<u8>) {
        concat3(
            self.session_key.as_slice(),
            self.expected_client_mac.as_slice(),
            self.handshake_secret.as_slice(),
        )
    }
}

impl FromBytes for Ke2State {
    /// Three digests' worth of bytes.
    open spec fn accepts(suite: CipherSuite, input: Seq<u8>) -> bool {
        input.len() == 3 * suite.nh()
    }

    open spec fn wire(&self) -> Seq<u8> {
        self@.serialize()
    }

    fn from_bytes(suite: CipherSuite, input: &[u8]) -> (r: Result<Self, ProtocolError>)
        ensures
            r matches Ok(state) ==> state@ == Ke2StateView::parse(suite, input@) && state@.wf(suite),
    {
        let n = suite.hash_size();
        if input.len() != 3 * n {
            return Err(ProtocolError::SerializationError);
        }
        Ok(
            Ke2State {
                session_key: copy_range(input, 0, n),
                expected_client_mac: copy_range(input, n, 2 * n),
                handshake_secret: copy_range(input, 2 * n, input.len()),
            },
        )
    }
}

impl ToBytes for Ke1Message {
    open spec fn spec_to_bytes(&self) -> Seq<u8> {
        self@.serialize()
    }

    fn to_bytes(&self) -> (out: Vec<u8>) {
        concat2(self.client_nonce.as_slice(), self.client_e_pk.as_slice())
    }
}

impl FromBytes for Ke1Message {
    /// 32 bytes and a public key of the group.
    open spec fn accepts(suite: CipherSuite, input: Seq<u8>) -> bool {
        &&& input.len() == suite.ke1_message_len()
        &&& pk_valid(suite.ke_group, input.subrange(NONCE_LEN as int, input.len() as int))
    }

    open spec fn wire(&self) -> Seq<u8> {
        self@.serialize()
    }

    fn from_bytes(suite: CipherSuite, input: &[u8]) -> (r: Result<Self, ProtocolError>)
        ensures
            r matches Ok(message) ==> message@ == Ke1MessageView::parse(input@) && message@.wf(
                suite,
            ),
    {
        if input.len() != suite.ke1_message_size() {
            return Err(ProtocolError::SerializationError);
        }
        let client_nonce = copy_range(input, 0, NONCE_LEN);
        let client_e_pk = copy_range(input, NONCE_LEN, input.len());
        if !is_public_key(suite.ke_group, client_e_pk.as_slice()) {
            return Err(ProtocolError::SerializationError);
        }
        Ok(Ke1Message { client_nonce, client_e_pk })
    }
}

impl ToBytes for Ke2Message {
    open spec fn spec_to_bytes(&self) -> Seq<u8> {
        self@.serialize()
    }

    fn to_bytes(&self) -> (out: Vec<u8>) {
        concat3(self.server_nonce.as_slice(), self.server_e_pk.as_slice(), self.mac.as_slice())
    }
}

impl FromBytes for Ke2Message {
    /// 32 bytes, a public key of the group, and a digest's worth of bytes.
    open spec fn accepts(suite: CipherSuite, input: Seq<u8>) -> bool {
        &&& input.len() == suite.ke2_message_len()
        &&& pk_valid(
            suite.ke_group,
            input.subrange(NONCE_LEN as int, NONCE_LEN + suite.npk() as int),
        )
    }

    open spec fn wire(&self) -> Seq<u8> {
        self@.serialize()
    }

    fn from_bytes(suite: CipherSuite, input: &[u8]) -> (r: Result<Self, ProtocolError>)
        ensures
            r matches Ok(message) ==> message@ == Ke2MessageView::parse(suite, input@)
                && message@.wf(suite),
    {
        if input.len() != suite.ke2_message_size() {
            return Err(ProtocolError::SerializationError);
        }
        let key_end = NONCE_LEN + suite.ke_group.pk_size();
        let server_nonce = copy_range(input, 0, NONCE_LEN);
        let server_e_pk = copy_range(input, NONCE_LEN, key_end);
        let mac = copy_range(input, key_end, input.len());
        if !is_public_key(suite.ke_group, server_e_pk.as_slice()) {
            return Err(ProtocolError::SerializationError);
        }
        Ok(Ke2Message { server_nonce, server_e_pk, mac })
    }
}

impl ToBytes for Ke3Message {
    open spec fn spec_to_bytes(&self) -> Seq<u8> {
        self@.serialize()
    }

    fn to_bytes(&self) -> (out: Vec<u8>) {
        copy_of(self.mac.as_slice())
    }
}

impl FromBytes for Ke3Message {
    /// A digest's worth of bytes.
    open spec fn accepts(suite: CipherSuite, input: Seq<u8>) -> bool {
        input.len() == suite.ke3_message_len()
    }

    open spec fn wire(&self) -> Seq<u8> {
        self@.serialize()
    }

    fn from_bytes(suite: CipherSuite, input: &[u8]) -> (r: Result<Self, ProtocolError>)
        ensures
            r matches Ok(message) ==> message@.mac == input@ && message@.wf(suite),
    {
        if input.len() != suite.hash_size() {
            return Err(ProtocolError::SerializationError);
        }
        Ok(Ke3Message { mac: copy_of(input) })
    }
}

/// The keys and tags that one run of the key schedule yields. They are
/// overwritten with zeros when the value is dropped.
pub struct KeySchedule {
    pub handshake_secret: Vec<u8>,
    pub session_key: Vec<u8>,
    pub server_mac_key: Vec<u8>,
    pub client_mac_key: Vec<u8>,
    pub server_mac: Vec<u8>,
    pub client_mac: Vec<u8>,
}

/// What a `KeySchedule` holds.
pub struct KeyScheduleView {
    pub handshake_secret: Seq<u8>,
    pub session_key: Seq<u8>,
    pub server_mac_key: Seq<u8>,
    pub client_mac_key: Seq<u8>,
    pub server_mac: Seq<u8>,
    pub client_mac: Seq<u8>,
}

impl View for KeySchedule {
    type V = KeyScheduleView;

    open spec fn view(&self) -> KeyScheduleView {
        KeyScheduleView {
            handshake_secret: self.handshake_secret@,
            session_key: self.session_key@,
            server_mac_key: self.server_mac_key@,
            client_mac_key: self.client_mac_key@,
            server_mac: self.server_mac@,
            client_mac: self.client_mac@,
        }
    }
}

/// The transcript of a handshake up to the server's key share:
/// `"OPAQUE-" ∥ len2(context) ∥ context ∥ len2(id_u) ∥ id_u ∥ l1 ∥ l2 ∥
/// len2(id_s) ∥ id_s ∥ server_nonce ∥ server_e_pk`, where `l1` is the
/// serialized credential request, `l2` the credential response without its
/// key-exchange part, and `len2` a length in two big-endian bytes.
pub open spec fn spec_preamble(
    context: Seq<u8>,
    id_u: Seq<u8>,
    l1: Seq<u8>,
    l2: Seq<u8>,
    id_s: Seq<u8>,
    server_nonce: Seq<u8>,
    server_e_pk: Seq<u8>,
) -> Seq<u8> {
    STR_OPAQUE@ + length_prefixed(context) + length_prefixed(id_u) + l1 + l2 + length_prefixed(id_s)
        + server_nonce + server_e_pk
}

/// The `info` of a key-schedule expansion: the output length in two bytes,
/// the label behind `"OPAQUE-"` and behind the length of both in one byte,
/// and the context behind its length in one byte.
pub open spec fn spec_hkdf_label(suite: CipherSuite, label: Seq<u8>, context: Seq<u8>) -> Seq<u8> {
    i2osp_2(suite.nh()) + seq![(STR_OPAQUE@.len() + label.len()) as u8] + STR_OPAQUE@ + label
        + seq![context.len() as u8] + context
}

/// `Derive-Secret(secret, label, transcript_hash)`: HKDF-Expand of
/// `secret` with the framed label, to the length of a digest.
pub open spec fn spec_derive_secret(
    suite: CipherSuite,
    secret: Seq<u8>,
    label: Seq<u8>,
    transcript_hash: Seq<u8>,
) -> Seq<u8> {
    spec_hkdf_expand(
        suite.hash_of(),
        secret,
        spec_hkdf_label(suite, label, transcript_hash),
        suite.nh(),
    ).unwrap()
}

/// The key schedule over the input keying material `ikm` and the
/// transcript `preamble`. With `prk = HKDF-Extract(0, ikm)`, the handshake
/// secret and the session key are derived from `prk` and the hash of the
/// transcript, and the two MAC keys from the handshake secret and an empty
/// context. The server's MAC covers the hash of the transcript, the
/// client's the hash of the transcript followed by the server's MAC.
pub open spec fn spec_key_schedule(suite: CipherSuite, ikm: Seq<u8>, preamble: Seq<u8>) -> KeyScheduleView {
    let h = suite.hash_of();
    let hashed = spec_hash(h, preamble);
    let prk = spec_hkdf_extract(h, ikm);
    let handshake_secret = spec_derive_secret(suite, prk, STR_HANDSHAKE_SECRET@, hashed);
    let session_key = spec_derive_secret(suite, prk, STR_SESSION_KEY@, hashed);
    let server_mac_key = spec_derive_secret(suite, handshake_secret, STR_SERVER_MAC@, Seq::empty());
    let client_mac_key = spec_derive_secret(suite, handshake_secret, STR_CLIENT_MAC@, Seq::empty());
    let server_mac = spec_hmac(h, server_mac_key, hashed);
    let client_mac = spec_hmac(h, client_mac_key, spec_hash(h, preamble + server_mac));
    KeyScheduleView {
        handshake_secret,
        session_key,
        server_mac_key,
        client_mac_key,
        server_mac,
        client_mac,
    }
}

/// Whether the context and both identities fit a two-byte length prefix.
pub open spec fn transcript_fits(context: Seq<u8>, id_u: Seq<u8>, id_s: Seq<u8>) -> bool {
    &&& context.len() <= MAX_PREFIXED_LEN
    &&& id_u.len() <= MAX_PREFIXED_LEN
    &&& id_s.len() <= MAX_PREFIXED_LEN
}

/// The client's first message for the ephemeral private key `client_e_sk`
/// and the nonce `client_nonce`.
pub open spec fn spec_generate_ke1(
    suite: CipherSuite,
    client_e_sk: Seq<u8>,
    client_nonce: Seq<u8>,
) -> Result<(Ke1StateView, Ke1MessageView), ProtocolError> {
    if sk_valid(suite.ke_group, client_e_sk) {
        Ok(
            (
                Ke1StateView { client_e_sk, client_nonce },
                Ke1MessageView {
                    client_nonce,
                    client_e_pk: spec_public_key(suite.ke_group, client_e_sk),
                },
            ),
        )
    } else {
        Err(ProtocolError::SerializationError)
    }
}

/// Whether the server's side can run on what it is given: the context and
/// the identities fit their length prefixes, the client's two public keys
/// are public keys and the server's static private key is a private key.
pub open spec fn ke2_inputs_fit(
    suite: CipherSuite,
    client_e_pk: Seq<u8>,
    client_s_pk: Seq<u8>,
    server_s_sk: Seq<u8>,
    id_u: Seq<u8>,
    id_s: Seq<u8>,
    context: Seq<u8>,
) -> bool {
    &&& transcript_fits(context, id_u, id_s)
    &&& sk_valid(suite.ke_group, server_s_sk)
    &&& pk_valid(suite.ke_group, client_e_pk)
    &&& pk_valid(suite.ke_group, client_s_pk)
}

/// The server's side of the exchange for the ephemeral private key
/// `server_e_sk` and the nonce `server_nonce`: the three Diffie-Hellman
/// values are `client_e_pk · server_e_sk`, `client_e_pk · server_s_sk` and
/// `client_s_pk · server_e_sk`.
pub open spec fn spec_generate_ke2(
    suite: CipherSuite,
    server_e_sk: Seq<u8>,
    server_nonce: Seq<u8>,
    l1: Seq<u8>,
    l2: Seq<u8>,
    client_e_pk: Seq<u8>,
    client_s_pk: Seq<u8>,
    server_s_sk: Seq<u8>,
    id_u: Seq<u8>,
    id_s: Seq<u8>,
    context: Seq<u8>,
) -> Result<(Ke2StateView, Ke2MessageView), ProtocolError> {
    let g = suite.ke_group;
    if !ke2_inputs_fit(suite, client_e_pk, client_s_pk, server_s_sk, id_u, id_s, context)
        || !sk_valid(g, server_e_sk) {
        Err(ProtocolError::SerializationError)
    } else {
        let server_e_pk = spec_public_key(g, server_e_sk);
        let ikm = spec_diffie_hellman(g, server_e_sk, client_e_pk) + spec_diffie_hellman(
            g,
            server_s_sk,
            client_e_pk,
        ) + spec_diffie_hellman(g, server_e_sk, client_s_pk);
        let preamble = spec_preamble(context, id_u, l1, l2, id_s, server_nonce, server_e_pk);
        let keys = spec_key_schedule(suite, ikm, preamble);
        Ok(
            (
                Ke2StateView {
                    session_key: keys.session_key,
                    expected_client_mac: keys.client_mac,
                    handshake_secret: keys.handshake_secret,
                },
                Ke2MessageView { server_nonce, server_e_pk, mac: keys.server_mac },
            ),
        )
    }
}

/// The client's side of the exchange: the three Diffie-Hellman values are
/// `server_e_pk · client_e_sk`, `server_s_pk · client_e_sk` and
/// `server_e_pk · client_s_sk`. Where the server's MAC is not the one of
/// the schedule, the login is invalid.
pub open spec fn spec_generate_ke3(
    suite: CipherSuite,
    l2: Seq<u8>,
    ke2: Ke2MessageView,
    client_e_sk: Seq<u8>,
    l1: Seq<u8>,
    server_s_pk: Seq<u8>,
    client_s_sk: Seq<u8>,
    id_u: Seq<u8>,
    id_s: Seq<u8>,
    context: Seq<u8>,
) -> Result<(Seq<u8>, Ke3MessageView), ProtocolError> {
    let g = suite.ke_group;
    if !transcript_fits(context, id_u, id_s) || !sk_valid(g, client_e_sk) || !sk_valid(
        g,
        client_s_sk,
    ) || !pk_valid(g, ke2.server_e_pk) || !pk_valid(g, server_s_pk) {
        Err(ProtocolError::SerializationError)
    } else {
        let ikm = spec_diffie_hellman(g, client_e_sk, ke2.server_e_pk) + spec_diffie_hellman(
            g,
            client_e_sk,
            server_s_pk,
        ) + spec_diffie_hellman(g, client_s_sk, ke2.server_e_pk);
        let preamble = spec_preamble(
            context,
            id_u,
            l1,
            l2,
            id_s,
            ke2.server_nonce,
            ke2.server_e_pk,
        );
        let keys = spec_key_schedule(suite, ikm, preamble);
        if keys.server_mac == ke2.mac {
            Ok((keys.session_key, Ke3MessageView { mac: keys.client_mac }))
        } else {
            Err(ProtocolError::InvalidLogin)
        }
    }
}

/// The server's last step: the session key where the client's MAC is the
/// expected one, else an invalid login.
pub open spec fn spec_finish_ke(ke3: Ke3MessageView, state: Ke2StateView) -> Result<
    Seq<u8>,
    ProtocolError,
> {
    if ke3.mac == state.expected_client_mac {
        Ok(state.session_key)
    } else {
        Err(ProtocolError::InvalidLogin)
    }
}

/// The transcript of a handshake up to the server's key share.
pub fn build_preamble(
    context: &[u8],
    id_u: &[u8],
    l1: &[u8],
    l2: &[u8],
    id_s: &[u8],
    server_nonce: &[u8],
    server_e_pk: &[u8],
) -> (out: Vec<u8>)
    requires
        transcript_fits(context@, id_u@, id_s@),
    ensures
        out@ == spec_preamble(context@, id_u@, l1@, l2@, id_s@, server_nonce@, server_e_pk@),
{
    let mut out: Vec<u8> = Vec::new();
    append(&mut out, STR_OPAQUE.as_slice());
    let context_len = encode_len_2(context.len());
    append(&mut out, context_len.as_slice());
    append(&mut out, context);
    let id_u_len = encode_len_2(id_u.len());
    append(&mut out, id_u_len.as_slice());
    append(&mut out, id_u);
    append(&mut out, l1);
    append(&mut out, l2);
    let id_s_len = encode_len_2(id_s.len());
    append(&mut out, id_s_len.as_slice());
    append(&mut out, id_s);
    append(&mut out, server_nonce);
    append(&mut out, server_e_pk);
    out
}

/// `Derive-Secret(secret, label, transcript_hash)`.
pub fn derive_secret(suite: CipherSuite, secret: &[u8], label: &[u8], transcript_hash: &[u8]) -> (out:
    Vec<u8>)
    requires
        secret@.len() >= suite.nh(),
        label@.len() <= 248,
        transcript_hash@.len() <= 255,
    ensures
        out@ == spec_derive_secret(suite, secret@, label@, transcript_hash@),
        out@.len() == suite.nh(),
{
    let n = suite.hash_size();
    let mut info = encode_len_2(n);
    info.push((STR_OPAQUE.len() + label.len()) as u8);
    append(&mut info, STR_OPAQUE.as_slice());
    append(&mut info, label);
    info.push(transcript_hash.len() as u8);
    append(&mut info, transcript_hash);
    assert(info@ =~= spec_hkdf_label(suite, label@, transcript_hash@));
    match hkdf_expand(suite.hash(), secret, info.as_slice(), n) {
        Some(okm) => okm,
        None => vstd::pervasive::unreached(),
    }
}

/// Runs the key schedule over `ikm` and the transcript `preamble`.
pub fn key_schedule(suite: CipherSuite, ikm: &[u8], preamble: &[u8]) -> (keys: KeySchedule)
    ensures
        keys@ == spec_key_schedule(suite, ikm@, preamble@),
        keys@.handshake_secret.len() == suite.nh(),
        keys@.session_key.len() == suite.nh(),
        keys@.server_mac.len() == suite.nh(),
        keys@.client_mac.len() == suite.nh(),
{
    let h = suite.hash();
    let hashed = hash(h, preamble);
    let prk = Secret::new(hkdf_extract(h, ikm));
    let empty: Vec<u8> = Vec::new();
    let handshake_secret = derive_secret(
        suite,
        prk.as_slice(),
        STR_HANDSHAKE_SECRET.as_slice(),
        hashed.as_slice(),
    );
    let session_key = derive_secret(
        suite,
        prk.as_slice(),
        STR_SESSION_KEY.as_slice(),
        hashed.as_slice(),
    );
    let server_mac_key = derive_secret(
        suite,
        handshake_secret.as_slice(),
        STR_SERVER_MAC.as_slice(),
        empty.as_slice(),
    );
    let client_mac_key = derive_secret(
        suite,
        handshake_secret.as_slice(),
        STR_CLIENT_MAC.as_slice(),
        empty.as_slice(),
    );
    let server_mac = hmac(h, server_mac_key.as_slice(), hashed.as_slice());
    let with_mac = concat2(preamble, server_mac.as_slice());
    let hashed_with_mac = hash(h, with_mac.as_slice());
    let client_mac = hmac(h, client_mac_key.as_slice(), hashed_with_mac.as_slice());
    KeySchedule {
        handshake_secret,
        session_key,
        server_mac_key,
        client_mac_key,
        server_mac,
        client_mac,
    }
}

/// The 3DH key exchange.
pub struct TripleDh;

impl TripleDh {
    /// The client's first message and state for a given ephemeral private
    /// key and nonce. Fails with `SerializationError` exactly where
    /// `client_e_sk` is no private key of the group.
    pub fn generate_ke1_with(suite: CipherSuite, client_e_sk: &[u8], client_nonce: &[u8]) -> (r:
        Result<(Ke1State, Ke1Message), ProtocolError>)
        requires
            client_nonce@.len() == NONCE_LEN,
        ensures
            r is Ok <==> sk_valid(suite.ke_group, client_e_sk@),
            r matches Ok((state, message)) ==> spec_generate_ke1(suite, client_e_sk@, client_nonce@)
                == Ok::<_, ProtocolError>((state@, message@)) && state@.wf(suite) && message@.wf(
                suite,
            ),
            r matches Err(e) ==> e == ProtocolError::SerializationError,
    {
        let kp = KeyPair::from_private_key_slice(suite.ke_group, client_e_sk)?;
        Ok(
            (
                Ke1State {
                    client_e_sk: copy_of(kp.private.as_slice()),
                    client_nonce: copy_of(client_nonce),
                },
                Ke1Message {
                    client_nonce: copy_of(client_nonce),
                    client_e_pk: copy_of(kp.public.as_slice()),
                },
            ),
        )
    }

    /// The server's message and state for a given ephemeral private key
    /// and nonce. Fails with `SerializationError` exactly where the
    /// context or an identity is longer than 65535 bytes or one of the
    /// four keys is no key of the group.
    pub fn generate_ke2_with(
        suite: CipherSuite,
        server_e_sk: &[u8],
        server_nonce: &[u8],
        l1_bytes: &[u8],
        l2_bytes: &[u8],
        ke1_message: &Ke1Message,
        client_s_pk: &[u8],
        server_s_sk: &[u8],
        id_u: &[u8],
        id_s: &[u8],
        context: &[u8],
    ) -> (r: Result<(Ke2State, Ke2Message), ProtocolError>)
        requires
            server_nonce@.len() == NONCE_LEN,
        ensures
            r matches Ok((state, message)) ==> spec_generate_ke2(
                suite,
                server_e_sk@,
                server_nonce@,
                l1_bytes@,
                l2_bytes@,
                ke1_message@.client_e_pk,
                client_s_pk@,
                server_s_sk@,
                id_u@,
                id_s@,
                context@,
            ) == Ok::<_, ProtocolError>((state@, message@)) && state@.wf(suite) && message@.wf(
                suite,
            ),
            r matches Err(e) ==> e == ProtocolError::SerializationError && spec_generate_ke2(
                suite,
                server_e_sk@,
                server_nonce@,
                l1_bytes@,
                l2_bytes@,
                ke1_message@.client_e_pk,
                client_s_pk@,
                server_s_sk@,
                id_u@,
                id_s@,
                context@,
            ) is Err,
    {
        let g = suite.ke_group;
        if context.len() > MAX_PREFIXED_LEN || id_u.len() > MAX_PREFIXED_LEN || id_s.len()
            > MAX_PREFIXED_LEN {
            return Err(ProtocolError::SerializationError);
        }
        let server_e_kp = KeyPair::from_private_key_slice(g, server_e_sk)?;
        let dh1 = match diffie_hellman(g, server_e_sk, ke1_message.client_e_pk.as_slice()) {
            Some(d) => Secret::new(d),
            None => { return Err(ProtocolError::SerializationError); },
        };
        let dh2 = match diffie_hellman(g, server_s_sk, ke1_message.client_e_pk.as_slice()) {
            Some(d) => Secret::new(d),
            None => { return Err(ProtocolError::SerializationError); },
        };
        let dh3 = match diffie_hellman(g, server_e_sk, client_s_pk) {
            Some(d) => Secret::new(d),
            None => { return Err(ProtocolError::SerializationError); },
        };
        let ikm = Secret::new(concat3(dh1.as_slice(), dh2.as_slice(), dh3.as_slice()));
        let preamble = build_preamble(
            context,
            id_u,
            l1_bytes,
            l2_bytes,
            id_s,
            server_nonce,
            server_e_kp.public.as_slice(),
        );
        let keys = key_schedule(suite, ikm.as_slice(), preamble.as_slice());
        Ok(
            (
                Ke2State {
                    session_key: copy_of(keys.session_key.as_slice()),
                    expected_client_mac: copy_of(keys.client_mac.as_slice()),
                    handshake_secret: copy_of(keys.handshake_secret.as_slice()),
                },
                Ke2Message {
                    server_nonce: copy_of(server_nonce),
                    server_e_pk: copy_of(server_e_kp.public.as_slice()),
                    mac: copy_of(keys.server_mac.as_slice()),
                },
            ),
        )
    }
}

impl KeyExchange for TripleDh {
    type KE1State = Ke1State;

    type KE2State = Ke2State;

    type KE1Message = Ke1Message;

    type KE2Message = Ke2Message;

    type KE3Message = Ke3Message;

    /// Draws an ephemeral key pair and a nonce. The result is what
    /// `spec_generate_ke1` gives for the private key and the nonce that
    /// the state holds. Fails with `InternalError` where the generator
    /// hands out what is no private key.
    fn generate_ke1(suite: CipherSuite, rng: &mut StdRng) -> (r: Result<
        (Ke1State, Ke1Message),
        ProtocolError,
    >)
        ensures
            r matches Ok((state, message)) ==> spec_generate_ke1(
                suite,
                state@.client_e_sk,
                state@.client_nonce,
            ) == Ok::<_, ProtocolError>((state@, message@)) && state@.wf(suite) && message@.wf(
                suite,
            ),
            r matches Err(e) ==> e == ProtocolError::InternalError,
    {
        let client_e_kp = KeyPair::generate_random(suite.ke_group, rng)?;
        let client_nonce = random_bytes(rng, NONCE_LEN);
        match TripleDh::generate_ke1_with(
            suite,
            client_e_kp.private.as_slice(),
            client_nonce.as_slice(),
        ) {
            Ok(out) => Ok(out),
            Err(_) => Err(ProtocolError::InternalError),
        }
    }

    /// Draws an ephemeral key pair and a nonce and runs the server's side.
    /// The result is what `spec_generate_ke2` gives for some ephemeral
    /// private key and the nonce that the message holds.
    fn generate_ke2(
        suite: CipherSuite,
        rng: &mut StdRng,
        l1_bytes: &[u8],
        l2_bytes: &[u8],
        ke1_message: &Ke1Message,
        client_s_pk: &[u8],
        server_s_sk: &[u8],
        id_u: &[u8],
        id_s: &[u8],
        context: &[u8],
    ) -> (r: Result<(Ke2State, Ke2Message), ProtocolError>)
        ensures
            r matches Ok((state, message)) ==> state@.wf(suite) && message@.wf(suite) && exists|
                server_e_sk: Seq<u8>,
            |
                #[trigger] spec_generate_ke2(
                    suite,
                    server_e_sk,
                    message@.server_nonce,
                    l1_bytes@,
                    l2_bytes@,
                    ke1_message@.client_e_pk,
                    client_s_pk@,
                    server_s_sk@,
                    id_u@,
                    id_s@,
                    context@,
                ) == Ok::<_, ProtocolError>((state@, message@)),
            r matches Err(e) ==> e == ProtocolError::InternalError || (e
                == ProtocolError::SerializationError && !ke2_inputs_fit(
                suite,
                ke1_message@.client_e_pk,
                client_s_pk@,
                server_s_sk@,
                id_u@,
                id_s@,
                context@,
            )),
    {
        let server_e_kp = KeyPair::generate_random(suite.ke_group, rng)?;
        let server_nonce = random_bytes(rng, NONCE_LEN);
        TripleDh::generate_ke2_with(
            suite,
            server_e_kp.private.as_slice(),
            server_nonce.as_slice(),
            l1_bytes,
            l2_bytes,
            ke1_message,
            client_s_pk,
            server_s_sk,
            id_u,
            id_s,
            context,
        )
    }

    /// Runs the client's side: recomputes the transcript and the key
    /// schedule, verifies the server's MAC in constant time, and answers
    /// with the client's MAC. Fails with `SerializationError` where the
    /// context or an identity is longer than 65535 bytes or one of the
    /// four keys is no key of the group, else with `InvalidLogin` where
    /// the server's MAC is not the one of the schedule.
    fn generate_ke3(
        suite: CipherSuite,
        l2_component: &[u8],
        ke2_message: &Ke2Message,
        ke1_state: &Ke1State,
        serialized_credential_request: &[u8],
        server_s_pk: &[u8],
        client_s_sk: &[u8],
        id_u: &[u8],
        id_s: &[u8],
        context: &[u8],
    ) -> (r: Result<(Vec<u8>, Ke3Message), ProtocolError>)
        ensures
            r matches Ok((session_key, message)) ==> spec_generate_ke3(
                suite,
                l2_component@,
                ke2_message@,
                ke1_state@.client_e_sk,
                serialized_credential_request@,
                server_s_pk@,
                client_s_sk@,
                id_u@,
                id_s@,
                context@,
            ) == Ok::<_, ProtocolError>((session_key@, message@)) && message@.wf(suite),
            r matches Err(e) ==> spec_generate_ke3(
                suite,
                l2_component@,
                ke2_message@,
                ke1_state@.client_e_sk,
                serialized_credential_request@,
                server_s_pk@,
                client_s_sk@,
                id_u@,
                id_s@,
                context@,
            ) == Err::<(Seq<u8>, Ke3MessageView), _>(e),
    {
        let g = suite.ke_group;
        if context.len() > MAX_PREFIXED_LEN || id_u.len() > MAX_PREFIXED_LEN || id_s.len()
            > MAX_PREFIXED_LEN {
            return Err(ProtocolError::SerializationError);
        }
        let dh1 = match diffie_hellman(
            g,
            ke1_state.client_e_sk.as_slice(),
            ke2_message.server_e_pk.as_slice(),
        ) {
            Some(d) => Secret::new(d),
            None => { return Err(ProtocolError::SerializationError); },
        };
        let dh2 = match diffie_hellman(g, ke1_state.client_e_sk.as_slice(), server_s_pk) {
            Some(d) => Secret::new(d),
            None => { return Err(ProtocolError::SerializationError); },
        };
        let dh3 = match diffie_hellman(g, client_s_sk, ke2_message.server_e_pk.as_slice()) {
            Some(d) => Secret::new(d),
            None => { return Err(ProtocolError::SerializationError); },
        };
        let ikm = Secret::new(concat3(dh1.as_slice(), dh2.as_slice(), dh3.as_slice()));
        let preamble = build_preamble(
            context,
            id_u,
            serialized_credential_request,
            l2_component,
            id_s,
            ke2_message.server_nonce.as_slice(),
            ke2_message.server_e_pk.as_slice(),
        );
        let keys = key_schedule(suite, ikm.as_slice(), preamble.as_slice());
        if !ct_eq(keys.server_mac.as_slice(), ke2_message.mac.as_slice()) {
            return Err(ProtocolError::InvalidLogin);
        }
        Ok(
            (
                copy_of(keys.session_key.as_slice()),
                Ke3Message { mac: copy_of(keys.client_mac.as_slice()) },
            ),
        )
    }

    /// Compares the client's MAC with the expected one in constant time.
    fn finish_ke(suite: CipherSuite, ke3_message: &Ke3Message, ke2_state: &Ke2State) -> (r: Result<
        Vec<u8>,
        ProtocolError,
    >)
        ensures
            r matches Ok(session_key) ==> spec_finish_ke(ke3_message@, ke2_state@) == Ok::<
                _,
                ProtocolError,
            >(session_key@),
            r matches Err(e) ==> spec_finish_ke(ke3_message@, ke2_state@) == Err::<Seq<u8>, _>(e),
    {
        if ct_eq(ke3_message.mac.as_slice(), ke2_state.expected_client_mac.as_slice()) {
            Ok(copy_of(ke2_state.session_key.as_slice()))
        } else {
            Err(ProtocolError::InvalidLogin)
        }
    }

    fn ke2_message_size(suite: CipherSuite) -> (n: usize) {
        suite.ke2_message_size()
    }
}

impl Ke1State {
    /// Overwrites the ephemeral private key and the nonce with zeros and
    /// leaves them empty.
    pub fn zeroize(&mut self)
        ensures
            final(self)@.client_e_sk.len() == 0,
            final(self)@.client_nonce.len() == 0,
    {
        erase(&mut self.client_e_sk);
        erase(&mut self.client_nonce);
    }
}

impl Ke2State {
    /// Overwrites the session key, the expected MAC and the handshake
    /// secret with zeros and leaves them empty.
    pub fn zeroize(&mut self)
        ensures
            final(self)@.session_key.len() == 0,
            final(self)@.expected_client_mac.len() == 0,
            final(self)@.handshake_secret.len() == 0,
    {
        erase(&mut self.session_key);
        erase(&mut self.expected_client_mac);
        erase(&mut self.handshake_secret);
    }
}

impl Drop for Ke1State {
    fn drop(&mut self)
        opens_invariants none
        no_unwind
    {
        erase(&mut self.client_e_sk);
        erase(&mut self.client_nonce);
    }
}

impl Drop for Ke2State {
    fn drop(&mut self)
        opens_invariants none
        no_unwind
    {
        erase(&mut self.session_key);
        erase(&mut self.expected_client_mac);
        erase(&mut self.handshake_secret);
    }
}

impl Drop for KeySchedule {
    fn drop(&mut self)
        opens_invariants none
        no_unwind
    {
        erase(&mut self.handshake_secret);
        erase(&mut self.session_key);
        erase(&mut self.server_mac_key);
        erase(&mut self.client_mac_key);
    }
}

} // verus!
