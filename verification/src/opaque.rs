//! The registration and login flows, the server's long-term setup, and
//! the derivations that both flows share.

use rand::rngs::StdRng;
use vstd::prelude::*;

use crate::bytes::{concat2, concat3, copy_of, copy_range, xor, xor_bytes};
use crate::ciphersuite::{CipherSuite, NONCE_LEN};
use crate::envelope::{
    spec_open,
    spec_seal,
    Envelope,
    EnvelopeView,
    InnerEnvelopeMode,
    OpenedEnvelope,
    OpenedEnvelopeView,
};
use crate::errors::ProtocolError;
use crate::identifiers::{
    bytestrings_from_identifiers,
    ids_fit,
    spec_id_s,
    spec_id_u,
    Identifiers,
    MAX_PREFIXED_LEN,
};
use crate::key_exchange::traits::KeyExchange;
use crate::key_exchange::tripledh::{
    spec_finish_ke,
    spec_generate_ke1,
    spec_generate_ke2,
    spec_generate_ke3,
    Ke1State,
    Ke1StateView,
    Ke2State,
    Ke2StateView,
    TripleDh,
};
use crate::keypair::{spec_keypair, KeyPair, KeyPairView};
use crate::labels::{STR_CREDENTIAL_RESPONSE_PAD, STR_MASKING_KEY, STR_OPRF_KEY};
use crate::messages::{
    check_element,
    spec_check_element,
    CredentialFinalization,
    CredentialFinalizationView,
    CredentialRequest,
    CredentialRequestView,
    CredentialResponse,
    CredentialResponseView,
    RegistrationRequest,
    RegistrationRequestView,
    RegistrationResponse,
    RegistrationResponseView,
    RegistrationUpload,
    RegistrationUploadView,
};
use crate::primitives::group::{is_public_key, pk_valid};
use crate::primitives::hash::{hkdf_expand, hkdf_extract, spec_hkdf_expand, spec_hkdf_extract};
use crate::primitives::oprf::{
    blind,
    blind_evaluate,
    derive_key,
    finalize,
    random_blind,
    spec_blind,
    spec_blind_evaluate,
    spec_derive_key,
    spec_finalize,
};
use crate::primitives::rng::{erase, random_bytes};
use crate::secret::Secret;

verus! {

/// The server's long-term secrets: the seed of every user's OPRF key, the
/// static key pair, and a key pair that stands in for the client's when an
/// unknown user logs in. They are overwritten with zeros when the setup is
/// dropped.
#[derive(Debug)]
pub struct ServerSetup {
    pub oprf_seed: Vec<u8>,
    pub keypair: KeyPair,
    pub fake_keypair: KeyPair,
}

/// What a `ServerSetup` holds.
pub struct ServerSetupView {
    pub oprf_seed: Seq<u8>,
    pub keypair: KeyPairView,
    pub fake_keypair: KeyPairView,
}

impl View for ServerSetup {
    type V = ServerSetupView;

    open spec fn view(&self) -> ServerSetupView {
        ServerSetupView {
            oprf_seed: self.oprf_seed@,
            keypair: self.keypair@,
            fake_keypair: self.fake_keypair@,
        }
    }
}

impl ServerSetupView {
    /// The seed has the length of a digest, and both key pairs are key
    /// pairs of the key-exchange group.
    pub open spec fn wf(self, suite: CipherSuite) -> bool {
        &&& self.oprf_seed.len() == suite.nh()
        &&& self.keypair.wf(suite.ke_group)
        &&& self.fake_keypair.wf(suite.ke_group)
    }

    /// The stored form: the seed, the static private key, the private key
    /// of the stand-in pair.
    pub open spec fn serialize(self) -> Seq<u8> {
        self.oprf_seed + self.keypair.private + self.fake_keypair.private
    }

    /// The setup with the given seed and private keys, or the refusal of
    /// one of them.
    pub open spec fn from_parts(
        suite: CipherSuite,
        oprf_seed: Seq<u8>,
        server_s_sk: Seq<u8>,
        fake_sk: Seq<u8>,
    ) -> Result<ServerSetupView, ProtocolError> {
        if oprf_seed.len() != suite.nh() {
            Err(ProtocolError::SerializationError)
        } else {
            match (spec_keypair(suite.ke_group, server_s_sk), spec_keypair(suite.ke_group, fake_sk)) {
                (Ok(keypair), Ok(fake_keypair)) => Ok(
                    ServerSetupView { oprf_seed, keypair, fake_keypair },
                ),
                _ => Err(ProtocolError::SerializationError),
            }
        }
    }

    /// What a byte string is read as.
    pub open spec fn deserialize(suite: CipherSuite, input: Seq<u8>) -> Result<
        ServerSetupView,
        ProtocolError,
    > {
        if input.len() != suite.nh() + 2 * suite.nsk() {
            Err(ProtocolError::SerializationError)
        } else {
            Self::from_parts(
                suite,
                input.subrange(0, suite.nh() as int),
                input.subrange(suite.nh() as int, suite.nh() + suite.nsk() as int),
                input.subrange(suite.nh() + suite.nsk() as int, input.len() as int),
            )
        }
    }
}

impl ServerSetup {
    /// A setup whose seed and private keys are drawn from `rng`. Fails
    /// with `InternalError` where the generator hands out what is no
    /// private key.
    pub fn new(suite: CipherSuite, rng: &mut StdRng) -> (r: Result<ServerSetup, ProtocolError>)
        ensures
            r matches Ok(setup) ==> setup@.wf(suite),
            r matches Err(e) ==> e == ProtocolError::InternalError,
    {
        let keypair = KeyPair::generate_random(suite.ke_group, rng)?;
        let fake_keypair = KeyPair::generate_random(suite.ke_group, rng)?;
        let oprf_seed = random_bytes(rng, suite.hash_size());
        Ok(ServerSetup { oprf_seed, keypair, fake_keypair })
    }

    /// The setup with the given seed and private keys. Fails with
    /// `SerializationError` exactly where the seed has another length than
    /// a digest or one of the keys is no private key of the group.
    pub fn from_parts(suite: CipherSuite, oprf_seed: &[u8], server_s_sk: &[u8], fake_sk: &[u8]) -> (r:
        Result<ServerSetup, ProtocolError>)
        ensures
            r matches Ok(setup) ==> ServerSetupView::from_parts(
                suite,
                oprf_seed@,
                server_s_sk@,
                fake_sk@,
            ) == Ok::<_, ProtocolError>(setup@) && setup@.wf(suite),
            r matches Err(e) ==> ServerSetupView::from_parts(
                suite,
                oprf_seed@,
                server_s_sk@,
                fake_sk@,
            ) == Err::<ServerSetupView, _>(e),
    {
        if oprf_seed.len() != suite.hash_size() {
            return Err(ProtocolError::SerializationError);
        }
        let keypair = KeyPair::from_private_key_slice(suite.ke_group, server_s_sk)?;
        let fake_keypair = KeyPair::from_private_key_slice(suite.ke_group, fake_sk)?;
        Ok(ServerSetup { oprf_seed: copy_of(oprf_seed), keypair, fake_keypair })
    }

    /// The stored form of the setup.
    pub fn serialize(&self) -> (out: Vec<u8>)
        ensures
            out@ == self@.serialize(),
    {
        concat3(
            self.oprf_seed.as_slice(),
            self.keypair.private.as_slice(),
            self.fake_keypair.private.as_slice(),
        )
    }

    /// Reads a setup from its stored form.
    pub fn deserialize(suite: CipherSuite, input: &[u8]) -> (r: Result<ServerSetup, ProtocolError>)
        ensures
            r matches Ok(setup) ==> ServerSetupView::deserialize(suite, input@) == Ok::<
                _,
                ProtocolError,
            >(setup@) && setup@.wf(suite),
            r matches Err(e) ==> ServerSetupView::deserialize(suite, input@) == Err::<
                ServerSetupView,
                _,
            >(e),
    {
        let seed_len = suite.hash_size();
        let key_len = suite.ke_group.sk_size();
        if input.len() != seed_len + 2 * key_len {
            return Err(ProtocolError::SerializationError);
        }
        let oprf_seed = copy_range(input, 0, seed_len);
        let server_s_sk = copy_range(input, seed_len, seed_len + key_len);
        let fake_sk = copy_range(input, seed_len + key_len, input.len());
        ServerSetup::from_parts(
            suite,
            oprf_seed.as_slice(),
            server_s_sk.as_slice(),
            fake_sk.as_slice(),
        )
    }

    /// The server's static public key.
    pub fn public_key(&self) -> (pk: &Vec<u8>)
        ensures
            pk@ == self@.keypair.public,
    {
        &self.keypair.public
    }

    /// Overwrites the seed and both private keys with zeros and leaves
    /// them empty.
    pub fn zeroize(&mut self)
        ensures
            final(self)@.oprf_seed.len() == 0,
            final(self)@.keypair.private.len() == 0,
            final(self)@.fake_keypair.private.len() == 0,
    {
        erase(&mut self.oprf_seed);
        self.keypair.zeroize();
        self.fake_keypair.zeroize();
    }
}

/// The key-stretching function, which is the identity. It stands between
/// the OPRF output and the randomized password, where another function
/// can take its place.
pub open spec fn spec_ksf(oprf_output: Seq<u8>) -> Seq<u8> {
    oprf_output
}

/// The key-stretching function, which is the identity.
pub fn ksf(oprf_output: &[u8]) -> (out: Vec<u8>)
    ensures
        out@ == spec_ksf(oprf_output@),
{
    copy_of(oprf_output)
}

/// A user's OPRF key: the seed `HKDF-Expand(oprf_seed,
/// credential_identifier ∥ "OprfKey", Nok)`, run through the key
/// derivation of the OPRF with an empty `info`.
pub open spec fn spec_oprf_key(
    suite: CipherSuite,
    oprf_seed: Seq<u8>,
    credential_identifier: Seq<u8>,
) -> Result<Seq<u8>, ProtocolError> {
    match spec_hkdf_expand(
        suite.hash_of(),
        oprf_seed,
        credential_identifier + STR_OPRF_KEY@,
        suite.nok(),
    ) {
        None => Err(ProtocolError::HkdfError),
        Some(seed) => match spec_derive_key(suite.oprf, seed, Seq::empty()) {
            None => Err(ProtocolError::InternalError),
            Some(key) => Ok(key),
        },
    }
}

/// The randomized password: `HKDF-Extract(salt = 0, oprf_output ∥
/// KSF(oprf_output))`.
pub open spec fn spec_randomized_password(suite: CipherSuite, oprf_output: Seq<u8>) -> Seq<u8> {
    spec_hkdf_extract(suite.hash_of(), oprf_output + spec_ksf(oprf_output))
}

/// The masking key: `HKDF-Expand(rp, "MaskingKey", Nh)`.
pub open spec fn spec_masking_key(suite: CipherSuite, rp: Seq<u8>) -> Option<Seq<u8>> {
    spec_hkdf_expand(suite.hash_of(), rp, STR_MASKING_KEY@, suite.nh())
}

/// The pad of a credential response: `HKDF-Expand(masking_key,
/// masking_nonce ∥ "CredentialResponsePad", Npk + 32 + Nm)`.
pub open spec fn spec_credential_response_pad(
    suite: CipherSuite,
    masking_key: Seq<u8>,
    masking_nonce: Seq<u8>,
) -> Option<Seq<u8>> {
    spec_hkdf_expand(
        suite.hash_of(),
        masking_key,
        masking_nonce + STR_CREDENTIAL_RESPONSE_PAD@,
        suite.masked_response_len(),
    )
}

/// The evaluation of a blinded element under a user's OPRF key. The
/// blinded element is checked before, the evaluated element after.
pub open spec fn spec_evaluate(
    suite: CipherSuite,
    oprf_seed: Seq<u8>,
    credential_identifier: Seq<u8>,
    blinded_element: Seq<u8>,
) -> Result<Seq<u8>, ProtocolError> {
    match spec_check_element(suite.oprf, blinded_element) {
        Err(e) => Err(e),
        Ok(_) => match spec_oprf_key(suite, oprf_seed, credential_identifier) {
            Err(e) => Err(e),
            Ok(key) => match spec_blind_evaluate(suite.oprf, key, blinded_element) {
                None => Err(ProtocolError::InternalError),
                Some(evaluated) => match spec_check_element(suite.oprf, evaluated) {
                    Err(e) => Err(e),
                    Ok(_) => Ok(evaluated),
                },
            },
        },
    }
}

/// The blinded element for a password, checked.
pub open spec fn spec_blinded(suite: CipherSuite, blind: Seq<u8>, password: Seq<u8>) -> Result<
    Seq<u8>,
    ProtocolError,
> {
    match spec_blind(suite.oprf, password, blind) {
        None => Err(ProtocolError::InternalError),
        Some(element) => match spec_check_element(suite.oprf, element) {
            Err(e) => Err(e),
            Ok(_) => Ok(element),
        },
    }
}

/// The OPRF output for a password: the evaluated element is checked, then
/// unblinded and hashed with the password.
pub open spec fn spec_oprf_output(
    suite: CipherSuite,
    password: Seq<u8>,
    blind: Seq<u8>,
    evaluation_element: Seq<u8>,
) -> Result<Seq<u8>, ProtocolError> {
    match spec_check_element(suite.oprf, evaluation_element) {
        Err(e) => Err(e),
        Ok(_) => match spec_finalize(suite.oprf, password, blind, evaluation_element) {
            None => Err(ProtocolError::InternalError),
            Some(output) => Ok(output),
        },
    }
}

/// A user's OPRF key. Fails with `HkdfError` where the seed is shorter
/// than a digest and with `InternalError` where the OPRF derives no key.
pub fn oprf_key(suite: CipherSuite, oprf_seed: &[u8], credential_identifier: &[u8]) -> (r: Result<
    Vec<u8>,
    ProtocolError,
>)
    ensures
        r matches Ok(key) ==> spec_oprf_key(suite, oprf_seed@, credential_identifier@) == Ok::<
            _,
            ProtocolError,
        >(key@) && key@.len() == suite.nok(),
        r matches Err(e) ==> spec_oprf_key(suite, oprf_seed@, credential_identifier@) == Err::<
            Seq<u8>,
            _,
        >(e),
{
    let info = concat2(credential_identifier, STR_OPRF_KEY.as_slice());
    let seed = match hkdf_expand(suite.hash(), oprf_seed, info.as_slice(), suite.oprf.scalar_size()) {
        Some(s) => Secret::new(s),
        None => { return Err(ProtocolError::HkdfError); },
    };
    let empty: Vec<u8> = Vec::new();
    match derive_key(suite.oprf, seed.as_slice(), empty.as_slice()) {
        Some(key) => Ok(key),
        None => Err(ProtocolError::InternalError),
    }
}

/// Evaluates a blinded element under a user's OPRF key.
pub fn evaluate(
    suite: CipherSuite,
    oprf_seed: &[u8],
    credential_identifier: &[u8],
    blinded_element: &[u8],
) -> (r: Result<Vec<u8>, ProtocolError>)
    ensures
        r matches Ok(evaluated) ==> spec_evaluate(
            suite,
            oprf_seed@,
            credential_identifier@,
            blinded_element@,
        ) == Ok::<_, ProtocolError>(evaluated@) && spec_check_element(suite.oprf, evaluated@) is Ok,
        r matches Err(e) ==> spec_evaluate(
            suite,
            oprf_seed@,
            credential_identifier@,
            blinded_element@,
        ) == Err::<Seq<u8>, _>(e),
{
    check_element(suite.oprf, blinded_element)?;
    let key = Secret::new(oprf_key(suite, oprf_seed, credential_identifier)?);
    let evaluated = match blind_evaluate(suite.oprf, key.as_slice(), blinded_element) {
        Some(e) => e,
        None => { return Err(ProtocolError::InternalError); },
    };
    check_element(suite.oprf, evaluated.as_slice())?;
    Ok(evaluated)
}

/// Blinds a password and checks the blinded element. Fails with
/// `InternalError` where the OPRF refuses the blind or the password.
pub fn blinded(suite: CipherSuite, scalar: &[u8], password: &[u8]) -> (r: Result<
    Vec<u8>,
    ProtocolError,
>)
    ensures
        r matches Ok(element) ==> spec_blinded(suite, scalar@, password@) == Ok::<
            _,
            ProtocolError,
        >(element@) && spec_check_element(suite.oprf, element@) is Ok,
        r matches Err(e) ==> spec_blinded(suite, scalar@, password@) == Err::<Seq<u8>, _>(e),
{
    let element = match blind(suite.oprf, password, scalar) {
        Some(e) => e,
        None => { return Err(ProtocolError::InternalError); },
    };
    check_element(suite.oprf, element.as_slice())?;
    Ok(element)
}

/// The OPRF output for a password, `Nh` bytes.
pub fn oprf_output(suite: CipherSuite, password: &[u8], scalar: &[u8], evaluation_element: &[u8]) -> (r:
    Result<Vec<u8>, ProtocolError>)
    ensures
        r matches Ok(output) ==> spec_oprf_output(suite, password@, scalar@, evaluation_element@)
            == Ok::<_, ProtocolError>(output@) && output@.len() == suite.nh(),
        r matches Err(e) ==> spec_oprf_output(suite, password@, scalar@, evaluation_element@)
            == Err::<Seq<u8>, _>(e),
{
    check_element(suite.oprf, evaluation_element)?;
    match finalize(suite.oprf, password, scalar, evaluation_element) {
        Some(output) => Ok(output),
        None => Err(ProtocolError::InternalError),
    }
}

/// The randomized password for an OPRF output, `Nh` bytes.
pub fn randomized_password(suite: CipherSuite, oprf_output: &[u8]) -> (rp: Vec<u8>)
    ensures
        rp@ == spec_randomized_password(suite, oprf_output@),
        rp@.len() == suite.nh(),
{
    let stretched = ksf(oprf_output);
    let ikm = concat2(oprf_output, stretched.as_slice());
    hkdf_extract(suite.hash(), ikm.as_slice())
}

/// The masking key for a randomized password. Fails with `HkdfError`
/// exactly where `rp` is shorter than a digest.
pub fn masking_key(suite: CipherSuite, rp: &[u8]) -> (r: Result<Vec<u8>, ProtocolError>)
    ensures
        r is Ok <==> rp@.len() >= suite.nh(),
        r matches Ok(key) ==> spec_masking_key(suite, rp@) == Some(key@) && key@.len()
            == suite.nh(),
        r matches Err(e) ==> e == ProtocolError::HkdfError && spec_masking_key(suite, rp@) is None,
{
    match hkdf_expand(suite.hash(), rp, STR_MASKING_KEY.as_slice(), suite.hash_size()) {
        Some(key) => Ok(key),
        None => Err(ProtocolError::HkdfError),
    }
}

/// The pad of a credential response. Fails with `HkdfError` exactly where
/// the masking key is shorter than a digest.
pub fn credential_response_pad(suite: CipherSuite, masking_key: &[u8], masking_nonce: &[u8]) -> (r:
    Result<Vec<u8>, ProtocolError>)
    ensures
        r is Ok <==> masking_key@.len() >= suite.nh(),
        r matches Ok(pad) ==> spec_credential_response_pad(suite, masking_key@, masking_nonce@)
            == Some(pad@) && pad@.len() == suite.masked_response_len(),
        r matches Err(e) ==> e == ProtocolError::HkdfError && spec_credential_response_pad(
            suite,
            masking_key@,
            masking_nonce@,
        ) is None,
{
    let info = concat2(masking_nonce, STR_CREDENTIAL_RESPONSE_PAD.as_slice());
    match hkdf_expand(suite.hash(), masking_key, info.as_slice(), suite.masked_response_size()) {
        Some(pad) => Ok(pad),
        None => Err(ProtocolError::HkdfError),
    }
}

/// What the client keeps between the two steps of a registration: the
/// blind. The second step consumes it, and it is overwritten with zeros
/// when it is dropped.
#[derive(Debug)]
pub struct ClientRegistration {
    pub blind: Vec<u8>,
}

/// The record that the server stores for a user once the registration is
/// complete.
#[derive(Debug)]
pub struct ServerRegistration {
    pub record: RegistrationUpload,
}

/// The first message of a registration for the blind `blind`.
pub open spec fn spec_registration_start(suite: CipherSuite, blind: Seq<u8>, password: Seq<u8>) -> Result<
    RegistrationRequestView,
    ProtocolError,
> {
    match spec_blinded(suite, blind, password) {
        Err(e) => Err(e),
        Ok(element) => Ok(RegistrationRequestView { blinded_element: element }),
    }
}

/// The server's answer to a registration request: the blinded element
/// evaluated under the user's OPRF key, and the server's public key.
pub open spec fn spec_registration_response(
    suite: CipherSuite,
    setup: ServerSetupView,
    request: RegistrationRequestView,
    credential_identifier: Seq<u8>,
) -> Result<RegistrationResponseView, ProtocolError> {
    match spec_evaluate(suite, setup.oprf_seed, credential_identifier, request.blinded_element) {
        Err(e) => Err(e),
        Ok(evaluated) => Ok(
            RegistrationResponseView {
                evaluation_element: evaluated,
                server_s_pk: setup.keypair.public,
            },
        ),
    }
}

/// The last message of a registration, and the export key, for the blind
/// `blind` and the envelope nonce `nonce`. A server public key that is
/// none is refused first.
pub open spec fn spec_registration_finish(
    suite: CipherSuite,
    blind: Seq<u8>,
    nonce: Seq<u8>,
    password: Seq<u8>,
    response: RegistrationResponseView,
    ids: Option<Identifiers>,
) -> Result<(RegistrationUploadView, Seq<u8>), ProtocolError> {
    if !pk_valid(suite.ke_group, response.server_s_pk) {
        Err(ProtocolError::SerializationError)
    } else {
        match spec_oprf_output(suite, password, blind, response.evaluation_element) {
            Err(e) => Err(e),
            Ok(output) => {
                let rp = spec_randomized_password(suite, output);
                match spec_masking_key(suite, rp) {
                    None => Err(ProtocolError::HkdfError),
                    Some(masking_key) => match spec_seal(
                        suite,
                        nonce,
                        rp,
                        response.server_s_pk,
                        ids,
                    ) {
                        Err(e) => Err(e),
                        Ok((envelope, client_s_pk, export_key)) => Ok(
                            (
                                RegistrationUploadView { envelope, masking_key, client_s_pk },
                                export_key,
                            ),
                        ),
                    },
                }
            },
        }
    }
}

impl ClientRegistration {
    /// Starts a registration with a blind drawn from `rng`. The message is
    /// the one that `spec_registration_start` gives for the blind that the
    /// state holds.
    pub fn start(suite: CipherSuite, rng: &mut StdRng, password: &[u8]) -> (r: Result<
        (ClientRegistration, RegistrationRequest),
        ProtocolError,
    >)
        ensures
            r matches Ok((state, message)) ==> spec_registration_start(
                suite,
                state.blind@,
                password@,
            ) == Ok::<_, ProtocolError>(message@) && message@.wf(suite),
            r matches Err(e) ==> exists|scalar: Seq<u8>|
                #[trigger] spec_registration_start(suite, scalar, password@) == Err::<
                    RegistrationRequestView,
                    _,
                >(e),
    {
        let scalar = random_blind(suite.oprf, rng);
        ClientRegistration::start_with_blind(suite, scalar.as_slice(), password)
    }

    /// Starts a registration with the given blind: blinds the password.
    /// Fails with `InternalError` where the OPRF refuses the blind or the
    /// password, and as `spec_check_element` says where the blinded
    /// element is not accepted.
    pub fn start_with_blind(suite: CipherSuite, scalar: &[u8], password: &[u8]) -> (r: Result<
        (ClientRegistration, RegistrationRequest),
        ProtocolError,
    >)
        ensures
            r matches Ok((state, message)) ==> state.blind@ == scalar@ && spec_registration_start(
                suite,
                scalar@,
                password@,
            ) == Ok::<_, ProtocolError>(message@) && message@.wf(suite),
            r matches Err(e) ==> spec_registration_start(suite, scalar@, password@) == Err::<
                RegistrationRequestView,
                _,
            >(e),
    {
        let blinded_element = blinded(suite, scalar, password)?;
        Ok((ClientRegistration { blind: copy_of(scalar) }, RegistrationRequest { blinded_element }))
    }

    /// Completes a registration with an envelope nonce drawn from `rng`.
    /// The result is the one that `spec_registration_finish` gives for the
    /// nonce that the envelope holds.
    pub fn finish(
        self,
        suite: CipherSuite,
        rng: &mut StdRng,
        password: &[u8],
        response: &RegistrationResponse,
        optional_ids: &Option<Identifiers>,
    ) -> (r: Result<(RegistrationUpload, Vec<u8>), ProtocolError>)
        ensures
            r matches Ok((message, export_key)) ==> spec_registration_finish(
                suite,
                self.blind@,
                message@.envelope.nonce,
                password@,
                response@,
                *optional_ids,
            ) == Ok::<_, ProtocolError>((message@, export_key@)) && message@.wf(suite)
                && message@.envelope.mode == InnerEnvelopeMode::Internal && export_key@.len()
                == suite.nh(),
            r matches Err(e) ==> exists|nonce: Seq<u8>|
                nonce.len() == NONCE_LEN && #[trigger] spec_registration_finish(
                    suite,
                    self.blind@,
                    nonce,
                    password@,
                    response@,
                    *optional_ids,
                ) == Err::<(RegistrationUploadView, Seq<u8>), _>(e),
    {
        let nonce = random_bytes(rng, NONCE_LEN);
        self.finish_with_nonce(suite, nonce.as_slice(), password, response, optional_ids)
    }

    /// Completes a registration with the given envelope nonce: unblinds
    /// the server's evaluation to the OPRF output, derives the randomized
    /// password and the masking key from it, and seals the envelope.
    pub fn finish_with_nonce(
        self,
        suite: CipherSuite,
        nonce: &[u8],
        password: &[u8],
        response: &RegistrationResponse,
        optional_ids: &Option<Identifiers>,
    ) -> (r: Result<(RegistrationUpload, Vec<u8>), ProtocolError>)
        requires
            nonce@.len() == NONCE_LEN,
        ensures
            r matches Ok((message, export_key)) ==> spec_registration_finish(
                suite,
                self.blind@,
                nonce@,
                password@,
                response@,
                *optional_ids,
            ) == Ok::<_, ProtocolError>((message@, export_key@)) && message@.wf(suite)
                && message@.envelope.mode == InnerEnvelopeMode::Internal && export_key@.len()
                == suite.nh(),
            r matches Err(e) ==> spec_registration_finish(
                suite,
                self.blind@,
                nonce@,
                password@,
                response@,
                *optional_ids,
            ) == Err::<(RegistrationUploadView, Seq<u8>), _>(e),
    {
        if !is_public_key(suite.ke_group, response.server_s_pk.as_slice()) {
            return Err(ProtocolError::SerializationError);
        }
        let output = Secret::new(
            oprf_output(
                suite,
                password,
                self.blind.as_slice(),
                response.evaluation_element.as_slice(),
            )?,
        );
        let rp = Secret::new(randomized_password(suite, output.as_slice()));
        let masking_key = masking_key(suite, rp.as_slice())?;
        let (envelope, client_s_pk, export_key) = Envelope::seal_with_nonce(
            suite,
            nonce,
            rp.as_slice(),
            response.server_s_pk.as_slice(),
            optional_ids,
        )?;
        Ok((RegistrationUpload { envelope, masking_key, client_s_pk }, export_key))
    }

    /// Overwrites the blind with zeros and leaves it empty.
    pub fn zeroize(&mut self)
        ensures
            final(self).blind@.len() == 0,
    {
        erase(&mut self.blind);
    }
}

impl ServerRegistration {
    /// Answers a registration request: evaluates the blinded element under
    /// the user's OPRF key.
    pub fn start(
        suite: CipherSuite,
        server_setup: &ServerSetup,
        message: &RegistrationRequest,
        credential_identifier: &[u8],
    ) -> (r: Result<RegistrationResponse, ProtocolError>)
        ensures
            r matches Ok(response) ==> spec_registration_response(
                suite,
                server_setup@,
                message@,
                credential_identifier@,
            ) == Ok::<_, ProtocolError>(response@) && (server_setup@.wf(suite) ==> response@.wf(
                suite,
            )),
            r matches Err(e) ==> spec_registration_response(
                suite,
                server_setup@,
                message@,
                credential_identifier@,
            ) == Err::<RegistrationResponseView, _>(e),
    {
        let evaluation_element = evaluate(
            suite,
            server_setup.oprf_seed.as_slice(),
            credential_identifier,
            message.blinded_element.as_slice(),
        )?;
        Ok(
            RegistrationResponse {
                evaluation_element,
                server_s_pk: copy_of(server_setup.keypair.public.as_slice()),
            },
        )
    }

    /// Takes the client's last message as the user's record.
    pub fn finish(message: RegistrationUpload) -> (registration: ServerRegistration)
        ensures
            registration.record@ == message@,
    {
        ServerRegistration { record: message }
    }

    /// The stored form of the record: the wire form of the message that it
    /// was taken from.
    pub fn serialize(&self) -> (out: Vec<u8>)
        ensures
            out@ == self.record@.serialize(),
    {
        self.record.serialize()
    }

    /// Reads a record from its stored form.
    pub fn deserialize(suite: CipherSuite, input: &[u8]) -> (r: Result<
        ServerRegistration,
        ProtocolError,
    >)
        ensures
            r matches Ok(registration) ==> RegistrationUploadView::deserialize(suite, input@)
                == Ok::<_, ProtocolError>(registration.record@) && registration.record@.wf(suite),
            r matches Err(e) ==> RegistrationUploadView::deserialize(suite, input@) == Err::<
                RegistrationUploadView,
                _,
            >(e),
    {
        let record = RegistrationUpload::deserialize(suite, input)?;
        Ok(ServerRegistration { record })
    }
}

/// What the client keeps between the two steps of a login: the blind, the
/// state of the key exchange, and the request as it was sent. The second
/// step consumes it, and it is overwritten with zeros when it is dropped.
#[derive(Debug)]
pub struct ClientLogin {
    pub blind: Vec<u8>,
    pub ke1_state: Ke1State,
    pub serialized_credential_request: Vec<u8>,
}

/// What a `ClientLogin` holds.
pub struct ClientLoginView {
    pub blind: Seq<u8>,
    pub ke1_state: Ke1StateView,
    pub serialized_credential_request: Seq<u8>,
}

impl View for ClientLogin {
    type V = ClientLoginView;

    open spec fn view(&self) -> ClientLoginView {
        ClientLoginView {
            blind: self.blind@,
            ke1_state: self.ke1_state@,
            serialized_credential_request: self.serialized_credential_request@,
        }
    }
}

/// What the server keeps between its answer and the client's last message:
/// the state of the key exchange. The last step consumes it, and it is
/// overwritten with zeros when it is dropped.
#[derive(Debug)]
pub struct ServerLogin {
    pub ke2_state: Ke2State,
}

/// What a successful login leaves with the client.
#[derive(Debug)]
pub struct ClientLoginFinishResult {
    pub message: CredentialFinalization,
    pub session_key: Vec<u8>,
    pub export_key: Vec<u8>,
    pub server_s_pk: Vec<u8>,
}

/// What a `ClientLoginFinishResult` holds.
pub struct ClientLoginFinishResultView {
    pub message: CredentialFinalizationView,
    pub session_key: Seq<u8>,
    pub export_key: Seq<u8>,
    pub server_s_pk: Seq<u8>,
}

impl View for ClientLoginFinishResult {
    type V = ClientLoginFinishResultView;

    open spec fn view(&self) -> ClientLoginFinishResultView {
        ClientLoginFinishResultView {
            message: self.message@,
            session_key: self.session_key@,
            export_key: self.export_key@,
            server_s_pk: self.server_s_pk@,
        }
    }
}

/// The first message of a login, and the client's state, for the blind
/// `blind`, the ephemeral private key `client_e_sk` and the nonce
/// `client_nonce`.
pub open spec fn spec_login_start(
    suite: CipherSuite,
    blind: Seq<u8>,
    client_e_sk: Seq<u8>,
    client_nonce: Seq<u8>,
    password: Seq<u8>,
) -> Result<(ClientLoginView, CredentialRequestView), ProtocolError> {
    match spec_blinded(suite, blind, password) {
        Err(e) => Err(e),
        Ok(element) => match spec_generate_ke1(suite, client_e_sk, client_nonce) {
            Err(e) => Err(e),
            Ok((ke1_state, ke1_message)) => {
                let request = CredentialRequestView { blinded_element: element, ke1_message };
                Ok(
                    (
                        ClientLoginView {
                            blind,
                            ke1_state,
                            serialized_credential_request: request.serialize(),
                        },
                        request,
                    ),
                )
            },
        },
    }
}

/// The record that a login runs on: the user's, or for an unknown user
/// one made of the dummy envelope, the masking key `HKDF-Expand(oprf_seed,
/// credential_identifier ∥ "MaskingKey", Nh)`, and the public key of the
/// stand-in pair.
pub open spec fn spec_record_or_fake(
    suite: CipherSuite,
    setup: ServerSetupView,
    record: Option<RegistrationUploadView>,
    credential_identifier: Seq<u8>,
) -> Result<RegistrationUploadView, ProtocolError> {
    match record {
        Some(r) => Ok(r),
        None => match spec_hkdf_expand(
            suite.hash_of(),
            setup.oprf_seed,
            credential_identifier + STR_MASKING_KEY@,
            suite.nh(),
        ) {
            None => Err(ProtocolError::HkdfError),
            Some(masking_key) => Ok(
                RegistrationUploadView {
                    envelope: EnvelopeView::dummy(suite),
                    masking_key,
                    client_s_pk: setup.fake_keypair.public,
                },
            ),
        },
    }
}

/// The masked part of a credential response: `(server_s_pk ∥ envelope)
/// XOR pad`. A record whose envelope has not the length of an envelope is
/// refused.
pub open spec fn spec_masked_response(
    suite: CipherSuite,
    server_s_pk: Seq<u8>,
    record: RegistrationUploadView,
    masking_nonce: Seq<u8>,
) -> Result<Seq<u8>, ProtocolError> {
    let plaintext = server_s_pk + record.envelope.serialize();
    match spec_credential_response_pad(suite, record.masking_key, masking_nonce) {
        None => Err(ProtocolError::HkdfError),
        Some(pad) => if plaintext.len() != pad.len() {
            Err(ProtocolError::SerializationError)
        } else {
            Ok(xor(plaintext, pad))
        },
    }
}

/// The server's answer to a credential request, and its state, for the
/// masking nonce, the ephemeral private key and the nonce given.
pub open spec fn spec_server_login_start(
    suite: CipherSuite,
    masking_nonce: Seq<u8>,
    server_e_sk: Seq<u8>,
    server_nonce: Seq<u8>,
    setup: ServerSetupView,
    record: Option<RegistrationUploadView>,
    request: CredentialRequestView,
    credential_identifier: Seq<u8>,
    ids: Option<Identifiers>,
    context: Seq<u8>,
) -> Result<(Ke2StateView, CredentialResponseView), ProtocolError> {
    match spec_evaluate(suite, setup.oprf_seed, credential_identifier, request.blinded_element) {
        Err(e) => Err(e),
        Ok(evaluated) => match spec_record_or_fake(suite, setup, record, credential_identifier) {
            Err(e) => Err(e),
            Ok(rec) => match spec_masked_response(suite, setup.keypair.public, rec, masking_nonce) {
                Err(e) => Err(e),
                Ok(masked) => if !ids_fit(ids, rec.client_s_pk, setup.keypair.public) {
                    Err(ProtocolError::SerializationError)
                } else {
                    match spec_generate_ke2(
                        suite,
                        server_e_sk,
                        server_nonce,
                        request.serialize(),
                        evaluated + masking_nonce + masked,
                        request.ke1_message.client_e_pk,
                        rec.client_s_pk,
                        setup.keypair.private,
                        spec_id_u(ids, rec.client_s_pk),
                        spec_id_s(ids, setup.keypair.public),
                        context,
                    ) {
                        Err(e) => Err(e),
                        Ok((state, ke2_message)) => Ok(
                            (
                                state,
                                CredentialResponseView {
                                    evaluation_element: evaluated,
                                    masking_nonce,
                                    masked_response: masked,
                                    ke2_message,
                                },
                            ),
                        ),
                    }
                },
            },
        },
    }
}

/// Whether the identities that were chosen fit a two-byte length prefix.
pub open spec fn chosen_ids_fit(ids: Option<Identifiers>) -> bool {
    match ids {
        None => true,
        Some(i) => (i.client matches Some(c) ==> c@.len() <= MAX_PREFIXED_LEN) && (i.server matches Some(
            s,
        ) ==> s@.len() <= MAX_PREFIXED_LEN),
    }
}

/// The OPRF output at a login. An evaluated element that decodes to the
/// identity makes the login invalid.
pub open spec fn spec_login_oprf_output(
    suite: CipherSuite,
    password: Seq<u8>,
    blind: Seq<u8>,
    evaluation_element: Seq<u8>,
) -> Result<Seq<u8>, ProtocolError> {
    match spec_oprf_output(suite, password, blind, evaluation_element) {
        Err(ProtocolError::IdentityGroupElement) => Err(ProtocolError::InvalidLogin),
        other => other,
    }
}

/// What the client recovers from a credential response with the
/// randomized password `rp`: the server's public key and the opened
/// envelope. Every failure makes the login invalid.
pub open spec fn spec_unmask_and_open(
    suite: CipherSuite,
    rp: Seq<u8>,
    response: CredentialResponseView,
    ids: Option<Identifiers>,
) -> Result<(Seq<u8>, OpenedEnvelopeView), ProtocolError> {
    match spec_masking_key(suite, rp) {
        None => Err(ProtocolError::InvalidLogin),
        Some(masking_key) => match spec_credential_response_pad(
            suite,
            masking_key,
            response.masking_nonce,
        ) {
            None => Err(ProtocolError::InvalidLogin),
            Some(pad) => {
                let plaintext = xor(response.masked_response, pad);
                let server_s_pk = plaintext.subrange(0, suite.npk() as int);
                let envelope_bytes = plaintext.subrange(suite.npk() as int, plaintext.len() as int);
                if !pk_valid(suite.ke_group, server_s_pk) {
                    Err(ProtocolError::InvalidLogin)
                } else {
                    match EnvelopeView::deserialize(suite, envelope_bytes) {
                        Err(_) => Err(ProtocolError::InvalidLogin),
                        Ok(envelope) => match spec_open(suite, envelope, rp, server_s_pk, ids) {
                            Err(_) => Err(ProtocolError::InvalidLogin),
                            Ok(opened) => Ok((server_s_pk, opened)),
                        },
                    }
                }
            },
        },
    }
}

/// The client's last step of a login. A response whose masking nonce or
/// masked part has not its length, a context or a chosen identity that is
/// too long, is refused first.
pub open spec fn spec_login_finish(
    suite: CipherSuite,
    client: ClientLoginView,
    password: Seq<u8>,
    response: CredentialResponseView,
    ids: Option<Identifiers>,
    context: Seq<u8>,
) -> Result<ClientLoginFinishResultView, ProtocolError> {
    if response.masking_nonce.len() != NONCE_LEN || response.masked_response.len()
        != suite.masked_response_len() || context.len() > MAX_PREFIXED_LEN || !chosen_ids_fit(ids) {
        Err(ProtocolError::SerializationError)
    } else {
        match spec_login_oprf_output(suite, password, client.blind, response.evaluation_element) {
            Err(e) => Err(e),
            Ok(output) => {
                let rp = spec_randomized_password(suite, output);
                match spec_unmask_and_open(suite, rp, response, ids) {
                    Err(e) => Err(e),
                    Ok((server_s_pk, opened)) => match spec_generate_ke3(
                        suite,
                        response.serialize_without_ke(),
                        response.ke2_message,
                        client.ke1_state.client_e_sk,
                        client.serialized_credential_request,
                        server_s_pk,
                        opened.client_static_keypair.private,
                        opened.id_u,
                        opened.id_s,
                        context,
                    ) {
                        Err(e) => Err(e),
                        Ok((session_key, ke3_message)) => Ok(
                            ClientLoginFinishResultView {
                                message: CredentialFinalizationView { ke3_message },
                                session_key,
                                export_key: opened.export_key,
                                server_s_pk,
                            },
                        ),
                    },
                }
            },
        }
    }
}

/// The server's last step of a login.
pub open spec fn spec_server_login_finish(
    state: Ke2StateView,
    message: CredentialFinalizationView,
) -> Result<Seq<u8>, ProtocolError> {
    spec_finish_ke(message.ke3_message, state)
}

/// The record that a login runs on, if there is one.
pub open spec fn record_view(record: Option<&ServerRegistration>) -> Option<RegistrationUploadView> {
    match record {
        Some(r) => Some(r.record@),
        None => None,
    }
}

/// Whether the identities that were chosen fit a two-byte length prefix.
pub fn check_chosen_ids(ids: &Option<Identifiers>) -> (ok: bool)
    ensures
        ok == chosen_ids_fit(*ids),
{
    match ids {
        None => true,
        Some(i) => {
            let client_ok = match &i.client {
                Some(c) => c.len() <= MAX_PREFIXED_LEN,
                None => true,
            };
            let server_ok = match &i.server {
                Some(s) => s.len() <= MAX_PREFIXED_LEN,
                None => true,
            };
            client_ok && server_ok
        },
    }
}

/// The record that a login runs on: a copy of the user's, or the one that
/// stands in for an unknown user. Fails with `HkdfError` exactly where
/// there is no record and the seed is shorter than a digest.
pub fn record_or_fake(
    suite: CipherSuite,
    server_setup: &ServerSetup,
    record: Option<&ServerRegistration>,
    credential_identifier: &[u8],
) -> (r: Result<RegistrationUpload, ProtocolError>)
    ensures
        r matches Ok(rec) ==> spec_record_or_fake(
            suite,
            server_setup@,
            record_view(record),
            credential_identifier@,
        ) == Ok::<_, ProtocolError>(rec@),
        r matches Err(e) ==> spec_record_or_fake(
            suite,
            server_setup@,
            record_view(record),
            credential_identifier@,
        ) == Err::<RegistrationUploadView, _>(e),
{
    match record {
        Some(r) => Ok(
            RegistrationUpload {
                envelope: Envelope {
                    mode: r.record.envelope.mode,
                    nonce: copy_of(r.record.envelope.nonce.as_slice()),
                    hmac: copy_of(r.record.envelope.hmac.as_slice()),
                },
                masking_key: copy_of(r.record.masking_key.as_slice()),
                client_s_pk: copy_of(r.record.client_s_pk.as_slice()),
            },
        ),
        None => {
            let info = concat2(credential_identifier, STR_MASKING_KEY.as_slice());
            match hkdf_expand(
                suite.hash(),
                server_setup.oprf_seed.as_slice(),
                info.as_slice(),
                suite.hash_size(),
            ) {
                Some(key) => Ok(
                    RegistrationUpload::dummy(
                        suite,
                        key.as_slice(),
                        server_setup.fake_keypair.public.as_slice(),
                    ),
                ),
                None => Err(ProtocolError::HkdfError),
            }
        },
    }
}

/// Masks the server's public key and the record's envelope with the pad
/// that the record's masking key and the masking nonce give.
pub fn masked_response(
    suite: CipherSuite,
    server_s_pk: &[u8],
    record: &RegistrationUpload,
    masking_nonce: &[u8],
) -> (r: Result<Vec<u8>, ProtocolError>)
    ensures
        r matches Ok(masked) ==> spec_masked_response(suite, server_s_pk@, record@, masking_nonce@)
            == Ok::<_, ProtocolError>(masked@) && masked@.len() == suite.masked_response_len(),
        r matches Err(e) ==> spec_masked_response(suite, server_s_pk@, record@, masking_nonce@)
            == Err::<Seq<u8>, _>(e),
{
    let envelope = record.envelope.serialize();
    let plaintext = concat2(server_s_pk, envelope.as_slice());
    let pad = credential_response_pad(suite, record.masking_key.as_slice(), masking_nonce)?;
    if plaintext.len() != pad.len() {
        return Err(ProtocolError::SerializationError);
    }
    Ok(xor_bytes(plaintext.as_slice(), pad.as_slice()))
}

/// Unmasks a credential response with the randomized password and opens
/// the envelope that it holds.
fn unmask_and_open(
    suite: CipherSuite,
    rp: &[u8],
    response: &CredentialResponse,
    optional_ids: &Option<Identifiers>,
) -> (r: Result<(Vec<u8>, OpenedEnvelope), ProtocolError>)
    requires
        response@.masked_response.len() == suite.masked_response_len(),
    ensures
        r matches Ok((server_s_pk, opened)) ==> spec_unmask_and_open(
            suite,
            rp@,
            response@,
            *optional_ids,
        ) == Ok::<_, ProtocolError>((server_s_pk@, opened@)),
        r matches Err(e) ==> spec_unmask_and_open(suite, rp@, response@, *optional_ids) == Err::<
            (Seq<u8>, OpenedEnvelopeView),
            _,
        >(e),
{
    let key = match masking_key(suite, rp) {
        Ok(k) => Secret::new(k),
        Err(_) => { return Err(ProtocolError::InvalidLogin); },
    };
    let pad = match credential_response_pad(suite, key.as_slice(), response.masking_nonce.as_slice()) {
        Ok(p) => Secret::new(p),
        Err(_) => { return Err(ProtocolError::InvalidLogin); },
    };
    let plaintext = xor_bytes(response.masked_response.as_slice(), pad.as_slice());
    let key_len = suite.ke_group.pk_size();
    let server_s_pk = copy_range(plaintext.as_slice(), 0, key_len);
    let envelope_bytes = copy_range(plaintext.as_slice(), key_len, plaintext.len());
    if !is_public_key(suite.ke_group, server_s_pk.as_slice()) {
        return Err(ProtocolError::InvalidLogin);
    }
    let envelope = match Envelope::deserialize(suite, envelope_bytes.as_slice()) {
        Ok(e) => e,
        Err(_) => { return Err(ProtocolError::InvalidLogin); },
    };
    match envelope.open(suite, rp, server_s_pk.as_slice(), optional_ids) {
        Ok(opened) => Ok((server_s_pk, opened)),
        Err(_) => Err(ProtocolError::InvalidLogin),
    }
}

impl ClientLogin {
    /// Starts a login with a blind, an ephemeral key pair and a nonce
    /// drawn from `rng`. The result is the one that `spec_login_start`
    /// gives for the values that the state holds.
    pub fn start(suite: CipherSuite, rng: &mut StdRng, password: &[u8]) -> (r: Result<
        (ClientLogin, CredentialRequest),
        ProtocolError,
    >)
        ensures
            r matches Ok((state, message)) ==> spec_login_start(
                suite,
                state@.blind,
                state@.ke1_state.client_e_sk,
                state@.ke1_state.client_nonce,
                password@,
            ) == Ok::<_, ProtocolError>((state@, message@)) && message@.wf(suite),
            r matches Err(e) ==> e == ProtocolError::InternalError || exists|
                scalar: Seq<u8>,
                client_e_sk: Seq<u8>,
                client_nonce: Seq<u8>,
            |
                client_nonce.len() == NONCE_LEN && #[trigger] spec_login_start(
                    suite,
                    scalar,
                    client_e_sk,
                    client_nonce,
                    password@,
                ) == Err::<(ClientLoginView, CredentialRequestView), _>(e),
    {
        let scalar = random_blind(suite.oprf, rng);
        let client_e_kp = KeyPair::generate_random(suite.ke_group, rng)?;
        let client_nonce = random_bytes(rng, NONCE_LEN);
        ClientLogin::start_with(
            suite,
            scalar.as_slice(),
            client_e_kp.private.as_slice(),
            client_nonce.as_slice(),
            password,
        )
    }

    /// Starts a login with the given blind, ephemeral private key and
    /// nonce: blinds the password and makes the first message of the key
    /// exchange.
    pub fn start_with(
        suite: CipherSuite,
        scalar: &[u8],
        client_e_sk: &[u8],
        client_nonce: &[u8],
        password: &[u8],
    ) -> (r: Result<(ClientLogin, CredentialRequest), ProtocolError>)
        requires
            client_nonce@.len() == NONCE_LEN,
        ensures
            r matches Ok((state, message)) ==> spec_login_start(
                suite,
                scalar@,
                client_e_sk@,
                client_nonce@,
                password@,
            ) == Ok::<_, ProtocolError>((state@, message@)) && message@.wf(suite),
            r matches Err(e) ==> spec_login_start(
                suite,
                scalar@,
                client_e_sk@,
                client_nonce@,
                password@,
            ) == Err::<(ClientLoginView, CredentialRequestView), _>(e),
    {
        let blinded_element = blinded(suite, scalar, password)?;
        let (ke1_state, ke1_message) = TripleDh::generate_ke1_with(suite, client_e_sk, client_nonce)?;
        let message = CredentialRequest { blinded_element, ke1_message };
        let serialized_credential_request = message.serialize();
        Ok((ClientLogin { blind: copy_of(scalar), ke1_state, serialized_credential_request }, message))
    }

    /// Completes a login: unblinds the server's evaluation, derives the
    /// randomized password, unmasks the server's public key and the
    /// envelope, opens the envelope, and runs the client's side of the key
    /// exchange.
    pub fn finish(
        self,
        suite: CipherSuite,
        password: &[u8],
        response: &CredentialResponse,
        optional_ids: &Option<Identifiers>,
        context: &[u8],
    ) -> (r: Result<ClientLoginFinishResult, ProtocolError>)
        ensures
            r matches Ok(result) ==> spec_login_finish(
                suite,
                self@,
                password@,
                response@,
                *optional_ids,
                context@,
            ) == Ok::<_, ProtocolError>(result@),
            r matches Err(e) ==> spec_login_finish(
                suite,
                self@,
                password@,
                response@,
                *optional_ids,
                context@,
            ) == Err::<ClientLoginFinishResultView, _>(e),
    {
        if response.masking_nonce.len() != NONCE_LEN || response.masked_response.len()
            != suite.masked_response_size() || context.len() > MAX_PREFIXED_LEN
            || !check_chosen_ids(optional_ids) {
            return Err(ProtocolError::SerializationError);
        }
        let output = match oprf_output(
            suite,
            password,
            self.blind.as_slice(),
            response.evaluation_element.as_slice(),
        ) {
            Ok(o) => Secret::new(o),
            Err(ProtocolError::IdentityGroupElement) => {
                return Err(ProtocolError::InvalidLogin);
            },
            Err(e) => { return Err(e); },
        };
        let rp = Secret::new(randomized_password(suite, output.as_slice()));
        let (server_s_pk, opened) = unmask_and_open(suite, rp.as_slice(), response, optional_ids)?;
        let l2 = response.serialize_without_ke();
        let (session_key, ke3_message) = TripleDh::generate_ke3(
            suite,
            l2.as_slice(),
            &response.ke2_message,
            &self.ke1_state,
            self.serialized_credential_request.as_slice(),
            server_s_pk.as_slice(),
            opened.client_static_keypair.private.as_slice(),
            opened.id_u.as_slice(),
            opened.id_s.as_slice(),
            context,
        )?;
        Ok(
            ClientLoginFinishResult {
                message: CredentialFinalization { ke3_message },
                session_key,
                export_key: opened.export_key,
                server_s_pk,
            },
        )
    }

    /// Overwrites the blind and the state of the key exchange with zeros
    /// and leaves them empty.
    pub fn zeroize(&mut self)
        ensures
            final(self)@.blind.len() == 0,
            final(self)@.ke1_state.client_e_sk.len() == 0,
            final(self)@.ke1_state.client_nonce.len() == 0,
    {
        erase(&mut self.blind);
        self.ke1_state.zeroize();
    }
}

impl ServerLogin {
    /// Answers a credential request with a masking nonce, an ephemeral key
    /// pair and a nonce drawn from `rng`. The result is the one that
    /// `spec_server_login_start` gives for the nonces that the response
    /// holds and some ephemeral private key. The response has one length,
    /// whether the user has a record or not.
    pub fn start(
        suite: CipherSuite,
        rng: &mut StdRng,
        server_setup: &ServerSetup,
        password_file: Option<&ServerRegistration>,
        credential_request: &CredentialRequest,
        credential_identifier: &[u8],
        optional_ids: &Option<Identifiers>,
        context: &[u8],
    ) -> (r: Result<(ServerLogin, CredentialResponse), ProtocolError>)
        ensures
            r matches Ok((state, response)) ==> response@.wf(suite) && state.ke2_state@.wf(suite)
                && response@.serialize().len() == CredentialResponseView::wire_len(suite)
                && exists|server_e_sk: Seq<u8>|
                #[trigger] spec_server_login_start(
                    suite,
                    response@.masking_nonce,
                    server_e_sk,
                    response@.ke2_message.server_nonce,
                    server_setup@,
                    record_view(password_file),
                    credential_request@,
                    credential_identifier@,
                    *optional_ids,
                    context@,
                ) == Ok::<_, ProtocolError>((state.ke2_state@, response@)),
            r matches Err(e) ==> e == ProtocolError::InternalError || exists|
                masking_nonce: Seq<u8>,
                server_e_sk: Seq<u8>,
                server_nonce: Seq<u8>,
            |
                masking_nonce.len() == NONCE_LEN && server_nonce.len() == NONCE_LEN
                    && #[trigger] spec_server_login_start(
                    suite,
                    masking_nonce,
                    server_e_sk,
                    server_nonce,
                    server_setup@,
                    record_view(password_file),
                    credential_request@,
                    credential_identifier@,
                    *optional_ids,
                    context@,
                ) == Err::<(Ke2StateView, CredentialResponseView), _>(e),
    {
        let masking_nonce = random_bytes(rng, NONCE_LEN);
        let server_e_kp = KeyPair::generate_random(suite.ke_group, rng)?;
        let server_nonce = random_bytes(rng, NONCE_LEN);
        ServerLogin::start_with(
            suite,
            masking_nonce.as_slice(),
            server_e_kp.private.as_slice(),
            server_nonce.as_slice(),
            server_setup,
            password_file,
            credential_request,
            credential_identifier,
            optional_ids,
            context,
        )
    }

    /// Answers a credential request with the given masking nonce,
    /// ephemeral private key and nonce: evaluates the blinded element,
    /// masks the server's public key and the record's envelope, and runs
    /// the server's side of the key exchange. Without a record, the one
    /// that stands in for an unknown user is used.
    pub fn start_with(
        suite: CipherSuite,
        masking_nonce: &[u8],
        server_e_sk: &[u8],
        server_nonce: &[u8],
        server_setup: &ServerSetup,
        password_file: Option<&ServerRegistration>,
        credential_request: &CredentialRequest,
        credential_identifier: &[u8],
        optional_ids: &Option<Identifiers>,
        context: &[u8],
    ) -> (r: Result<(ServerLogin, CredentialResponse), ProtocolError>)
        requires
            masking_nonce@.len() == NONCE_LEN,
            server_nonce@.len() == NONCE_LEN,
        ensures
            r matches Ok((state, response)) ==> spec_server_login_start(
                suite,
                masking_nonce@,
                server_e_sk@,
                server_nonce@,
                server_setup@,
                record_view(password_file),
                credential_request@,
                credential_identifier@,
                *optional_ids,
                context@,
            ) == Ok::<_, ProtocolError>((state.ke2_state@, response@)) && response@.wf(suite)
                && state.ke2_state@.wf(suite) && response@.serialize().len()
                == CredentialResponseView::wire_len(suite),
            r matches Err(e) ==> spec_server_login_start(
                suite,
                masking_nonce@,
                server_e_sk@,
                server_nonce@,
                server_setup@,
                record_view(password_file),
                credential_request@,
                credential_identifier@,
                *optional_ids,
                context@,
            ) == Err::<(Ke2StateView, CredentialResponseView), _>(e),
    {
        let evaluation_element = evaluate(
            suite,
            server_setup.oprf_seed.as_slice(),
            credential_identifier,
            credential_request.blinded_element.as_slice(),
        )?;
        let record = record_or_fake(suite, server_setup, password_file, credential_identifier)?;
        let server_s_pk = server_setup.keypair.public.as_slice();
        let masked = masked_response(suite, server_s_pk, &record, masking_nonce)?;
        let (id_u, id_s) = bytestrings_from_identifiers(
            optional_ids,
            record.client_s_pk.as_slice(),
            server_s_pk,
        )?;
        let l1 = credential_request.serialize();
        let l2 = concat3(evaluation_element.as_slice(), masking_nonce, masked.as_slice());
        let (ke2_state, ke2_message) = TripleDh::generate_ke2_with(
            suite,
            server_e_sk,
            server_nonce,
            l1.as_slice(),
            l2.as_slice(),
            &credential_request.ke1_message,
            record.client_s_pk.as_slice(),
            server_setup.keypair.private.as_slice(),
            id_u.as_slice(),
            id_s.as_slice(),
            context,
        )?;
        Ok(
            (
                ServerLogin { ke2_state },
                CredentialResponse {
                    evaluation_element,
                    masking_nonce: copy_of(masking_nonce),
                    masked_response: masked,
                    ke2_message,
                },
            ),
        )
    }

    /// Completes a login: compares the client's MAC with the expected one
    /// in constant time and gives out the session key. Fails with
    /// `InvalidLogin` exactly where the two differ.
    pub fn finish(self, suite: CipherSuite, message: &CredentialFinalization) -> (r: Result<
        Vec<u8>,
        ProtocolError,
    >)
        ensures
            r matches Ok(session_key) ==> spec_server_login_finish(self.ke2_state@, message@)
                == Ok::<_, ProtocolError>(session_key@),
            r matches Err(e) ==> e == ProtocolError::InvalidLogin && spec_server_login_finish(
                self.ke2_state@,
                message@,
            ) == Err::<Seq<u8>, _>(e),
    {
        TripleDh::finish_ke(suite, &message.ke3_message, &self.ke2_state)
    }

    /// Overwrites the state of the key exchange with zeros and leaves it
    /// empty.
    pub fn zeroize(&mut self)
        ensures
            final(self).ke2_state@.session_key.len() == 0,
            final(self).ke2_state@.expected_client_mac.len() == 0,
            final(self).ke2_state@.handshake_secret.len() == 0,
    {
        self.ke2_state.zeroize();
    }
}

impl Drop for ServerSetup {
    fn drop(&mut self)
        opens_invariants none
        no_unwind
    {
        erase(&mut self.oprf_seed);
    }
}

impl Drop for ClientRegistration {
    fn drop(&mut self)
        opens_invariants none
        no_unwind
    {
        erase(&mut self.blind);
    }
}

impl Drop for ClientLogin {
    fn drop(&mut self)
        opens_invariants none
        no_unwind
    {
        erase(&mut self.blind);
    }
}

} // verus!
