//! What holds of the library as a whole: laws that relate several of its
//! functions, stated over their specifications and proved.

use vstd::prelude::*;

use crate::bytes::{lemma_xor_involution, xor};
use crate::ciphersuite::{CipherSuite, KeGroup, NONCE_LEN};
use crate::envelope::{
    spec_aad_of,
    spec_auth_key,
    spec_open,
    spec_recover_keys,
    spec_seal,
    EnvelopeView,
    InnerEnvelopeMode,
    OpenedEnvelopeView,
};
use crate::errors::ProtocolError;
use crate::identifiers::{ids_fit, spec_id_s, spec_id_u, Identifiers};
use crate::key_exchange::traits::FromBytes;
use crate::key_exchange::tripledh::{
    Ke1Message,
    Ke1MessageView,
    Ke1State,
    Ke1StateView,
    Ke2Message,
    Ke2MessageView,
    Ke2State,
    Ke2StateView,
    Ke3Message,
    Ke3MessageView,
};
use crate::messages::{
    CredentialFinalizationView,
    CredentialRequestView,
    CredentialResponseView,
    RegistrationRequestView,
    RegistrationResponseView,
    RegistrationUploadView,
};
use crate::opaque::{
    spec_credential_response_pad,
    spec_login_finish,
    spec_login_oprf_output,
    spec_login_start,
    spec_masked_response,
    spec_masking_key,
    spec_oprf_output,
    spec_randomized_password,
    spec_registration_finish,
    spec_registration_response,
    spec_registration_start,
    spec_server_login_finish,
    spec_server_login_start,
    spec_unmask_and_open,
    ClientLoginFinishResultView,
    ClientLoginView,
    ServerSetupView,
};
use crate::primitives::group::{spec_diffie_hellman, spec_public_key};
use crate::primitives::hash::spec_hmac;
use crate::identifiers::MAX_PREFIXED_LEN;
use crate::opaque::chosen_ids_fit;
use crate::primitives::oprf::{element_is_identity, spec_finalize};

verus! {

/// An envelope in `Internal` mode that is written and read again is the
/// same envelope, and its wire form has the length that the suite fixes.
pub proof fn lemma_envelope_round_trip(suite: CipherSuite, envelope: EnvelopeView)
    requires
        envelope.wf(suite),
        envelope.mode == InnerEnvelopeMode::Internal,
    ensures
        envelope.serialize().len() == suite.envelope_len(),
        EnvelopeView::deserialize(suite, envelope.serialize()) == Ok::<_, ProtocolError>(envelope),
{
    let bytes = envelope.serialize();
    assert(bytes.subrange(0, NONCE_LEN as int) =~= envelope.nonce);
    assert(bytes.subrange(NONCE_LEN as int, bytes.len() as int) =~= envelope.hmac);
}

/// A byte string that is read as an envelope is the wire form of that
/// envelope.
pub proof fn lemma_envelope_parse_is_exact(suite: CipherSuite, bytes: Seq<u8>)
    requires
        EnvelopeView::deserialize(suite, bytes) is Ok,
    ensures
        EnvelopeView::deserialize(suite, bytes).unwrap().serialize() == bytes,
        EnvelopeView::deserialize(suite, bytes).unwrap().wf(suite),
{
}

/// A registration request that is written and read again is the same
/// request, and its wire form has the length that the suite fixes.
pub proof fn lemma_registration_request_round_trip(
    suite: CipherSuite,
    message: RegistrationRequestView,
)
    requires
        message.wf(suite),
    ensures
        message.serialize().len() == RegistrationRequestView::wire_len(suite),
        RegistrationRequestView::deserialize(suite, message.serialize()) == Ok::<_, ProtocolError>(
            message,
        ),
{
}

/// A registration response that is written and read again is the same
/// response, and its wire form has the length that the suite fixes.
pub proof fn lemma_registration_response_round_trip(
    suite: CipherSuite,
    message: RegistrationResponseView,
)
    requires
        message.wf(suite),
    ensures
        message.serialize().len() == RegistrationResponseView::wire_len(suite),
        RegistrationResponseView::deserialize(suite, message.serialize()) == Ok::<
            _,
            ProtocolError,
        >(message),
{
    let bytes = message.serialize();
    assert(bytes.subrange(0, suite.noe() as int) =~= message.evaluation_element);
    assert(bytes.subrange(suite.noe() as int, bytes.len() as int) =~= message.server_s_pk);
}

/// A registration upload with an envelope in `Internal` mode that is
/// written and read again is the same upload, and its wire form has the
/// length that the suite fixes.
pub proof fn lemma_registration_upload_round_trip(
    suite: CipherSuite,
    message: RegistrationUploadView,
)
    requires
        message.wf(suite),
        message.envelope.mode == InnerEnvelopeMode::Internal,
    ensures
        message.serialize().len() == RegistrationUploadView::wire_len(suite),
        RegistrationUploadView::deserialize(suite, message.serialize()) == Ok::<_, ProtocolError>(
            message,
        ),
{
    let bytes = message.serialize();
    let key_end = suite.npk() as int;
    let mask_end = suite.npk() + suite.nh() as int;
    let rest = bytes.subrange(mask_end, bytes.len() as int);
    assert(bytes.subrange(0, key_end) =~= message.client_s_pk);
    assert(bytes.subrange(key_end, mask_end) =~= message.masking_key);
    assert(rest.subrange(0, NONCE_LEN as int) =~= message.envelope.nonce);
    assert(rest.subrange(NONCE_LEN as int, rest.len() as int) =~= message.envelope.hmac);
}

/// A first key-exchange message that is written and read again is the
/// same message, and its wire form has the length that the suite fixes.
pub proof fn lemma_ke1_message_round_trip(suite: CipherSuite, message: Ke1MessageView)
    requires
        message.wf(suite),
    ensures
        message.serialize().len() == suite.ke1_message_len(),
        Ke1Message::accepts(suite, message.serialize()),
        Ke1MessageView::parse(message.serialize()) == message,
{
    let bytes = message.serialize();
    assert(bytes.subrange(0, NONCE_LEN as int) =~= message.client_nonce);
    assert(bytes.subrange(NONCE_LEN as int, bytes.len() as int) =~= message.client_e_pk);
}

/// A second key-exchange message that is written and read again is the
/// same message, and its wire form has the length that the suite fixes.
pub proof fn lemma_ke2_message_round_trip(suite: CipherSuite, message: Ke2MessageView)
    requires
        message.wf(suite),
    ensures
        message.serialize().len() == suite.ke2_message_len(),
        Ke2Message::accepts(suite, message.serialize()),
        Ke2MessageView::parse(suite, message.serialize()) == message,
{
    let bytes = message.serialize();
    let key_end = NONCE_LEN + suite.npk() as int;
    assert(bytes.subrange(0, NONCE_LEN as int) =~= message.server_nonce);
    assert(bytes.subrange(NONCE_LEN as int, key_end) =~= message.server_e_pk);
    assert(bytes.subrange(key_end, bytes.len() as int) =~= message.mac);
}

/// A third key-exchange message that is written and read again is the
/// same message, and its wire form has the length that the suite fixes.
pub proof fn lemma_ke3_message_round_trip(suite: CipherSuite, message: Ke3MessageView)
    requires
        message.wf(suite),
    ensures
        message.serialize().len() == suite.ke3_message_len(),
        Ke3Message::accepts(suite, message.serialize()),
{
}

/// A client state of the key exchange that is written and read again is
/// the same state.
pub proof fn lemma_ke1_state_round_trip(suite: CipherSuite, state: Ke1StateView)
    requires
        state.wf(suite),
    ensures
        Ke1State::accepts(suite, state.serialize()),
        Ke1StateView::parse(suite, state.serialize()) == state,
{
    let bytes = state.serialize();
    assert(bytes.subrange(0, suite.nsk() as int) =~= state.client_e_sk);
    assert(bytes.subrange(suite.nsk() as int, bytes.len() as int) =~= state.client_nonce);
}

/// A server state of the key exchange that is written and read again is
/// the same state.
pub proof fn lemma_ke2_state_round_trip(suite: CipherSuite, state: Ke2StateView)
    requires
        state.wf(suite),
    ensures
        Ke2State::accepts(suite, state.serialize()),
        Ke2StateView::parse(suite, state.serialize()) == state,
{
    let bytes = state.serialize();
    let n = suite.nh() as int;
    assert(bytes.subrange(0, n) =~= state.session_key);
    assert(bytes.subrange(n, 2 * n) =~= state.expected_client_mac);
    assert(bytes.subrange(2 * n, bytes.len() as int) =~= state.handshake_secret);
}

/// A credential request that is written and read again is the same
/// request, and its wire form has the length that the suite fixes.
pub proof fn lemma_credential_request_round_trip(suite: CipherSuite, message: CredentialRequestView)
    requires
        message.wf(suite),
    ensures
        message.serialize().len() == CredentialRequestView::wire_len(suite),
        CredentialRequestView::deserialize(suite, message.serialize()) == Ok::<_, ProtocolError>(
            message,
        ),
{
    let bytes = message.serialize();
    let rest = bytes.subrange(suite.noe() as int, bytes.len() as int);
    lemma_ke1_message_round_trip(suite, message.ke1_message);
    assert(bytes.subrange(0, suite.noe() as int) =~= message.blinded_element);
    assert(rest =~= message.ke1_message.serialize());
}

/// A credential response that is written and read again is the same
/// response, and its wire form has the length that the suite fixes.
pub proof fn lemma_credential_response_round_trip(
    suite: CipherSuite,
    message: CredentialResponseView,
)
    requires
        message.wf(suite),
    ensures
        message.serialize().len() == CredentialResponseView::wire_len(suite),
        message.serialize_without_ke().len() == CredentialResponseView::without_ke_len(suite),
        CredentialResponseView::deserialize(suite, message.serialize()) == Ok::<_, ProtocolError>(
            message,
        ),
{
    let bytes = message.serialize();
    let nonce_start = suite.noe() as int;
    let masked_start = nonce_start + NONCE_LEN;
    let ke_start = masked_start + suite.masked_response_len();
    let rest = bytes.subrange(ke_start, bytes.len() as int);
    lemma_ke2_message_round_trip(suite, message.ke2_message);
    assert(bytes.subrange(0, nonce_start) =~= message.evaluation_element);
    assert(bytes.subrange(nonce_start, masked_start) =~= message.masking_nonce);
    assert(bytes.subrange(masked_start, ke_start) =~= message.masked_response);
    assert(rest =~= message.ke2_message.serialize());
}

/// A credential finalization that is written and read again is the same
/// finalization, and its wire form has the length that the suite fixes.
pub proof fn lemma_credential_finalization_round_trip(
    suite: CipherSuite,
    message: CredentialFinalizationView,
)
    requires
        message.wf(suite),
    ensures
        message.serialize().len() == CredentialFinalizationView::wire_len(suite),
        CredentialFinalizationView::deserialize(suite, message.serialize()) == Ok::<
            _,
            ProtocolError,
        >(message),
{
}

/// A byte string that is read as a registration request is the wire form
/// of that request, and the request is well formed.
pub proof fn lemma_registration_request_parse_is_exact(suite: CipherSuite, bytes: Seq<u8>)
    requires
        RegistrationRequestView::deserialize(suite, bytes) is Ok,
    ensures
        RegistrationRequestView::deserialize(suite, bytes).unwrap().serialize() == bytes,
        RegistrationRequestView::deserialize(suite, bytes).unwrap().wf(suite),
{
}

/// A byte string that is read as a registration response is the wire form
/// of that response, and the response is well formed.
pub proof fn lemma_registration_response_parse_is_exact(suite: CipherSuite, bytes: Seq<u8>)
    requires
        RegistrationResponseView::deserialize(suite, bytes) is Ok,
    ensures
        RegistrationResponseView::deserialize(suite, bytes).unwrap().serialize() == bytes,
        RegistrationResponseView::deserialize(suite, bytes).unwrap().wf(suite),
{
}

/// A byte string that is read as a registration upload is the wire form of
/// that upload, and the upload is well formed.
pub proof fn lemma_registration_upload_parse_is_exact(suite: CipherSuite, bytes: Seq<u8>)
    requires
        RegistrationUploadView::deserialize(suite, bytes) is Ok,
    ensures
        RegistrationUploadView::deserialize(suite, bytes).unwrap().serialize() == bytes,
        RegistrationUploadView::deserialize(suite, bytes).unwrap().wf(suite),
{
}

/// A byte string that is read as a credential request is the wire form of
/// that request, and the request is well formed.
pub proof fn lemma_credential_request_parse_is_exact(suite: CipherSuite, bytes: Seq<u8>)
    requires
        CredentialRequestView::deserialize(suite, bytes) is Ok,
    ensures
        CredentialRequestView::deserialize(suite, bytes).unwrap().serialize() == bytes,
        CredentialRequestView::deserialize(suite, bytes).unwrap().wf(suite),
{
}

/// A byte string that is read as a credential response is the wire form of
/// that response, and the response is well formed.
pub proof fn lemma_credential_response_parse_is_exact(suite: CipherSuite, bytes: Seq<u8>)
    requires
        CredentialResponseView::deserialize(suite, bytes) is Ok,
    ensures
        CredentialResponseView::deserialize(suite, bytes).unwrap().serialize() == bytes,
        CredentialResponseView::deserialize(suite, bytes).unwrap().wf(suite),
{
}

/// A byte string that is read as a credential finalization is the wire
/// form of that finalization, and the finalization is well formed.
pub proof fn lemma_credential_finalization_parse_is_exact(suite: CipherSuite, bytes: Seq<u8>)
    requires
        CredentialFinalizationView::deserialize(suite, bytes) is Ok,
    ensures
        CredentialFinalizationView::deserialize(suite, bytes).unwrap().serialize() == bytes,
        CredentialFinalizationView::deserialize(suite, bytes).unwrap().wf(suite),
{
}

/// A registration request whose blinded element decodes to the identity
/// is refused as such.
pub proof fn lemma_registration_request_refuses_identity(suite: CipherSuite, input: Seq<u8>)
    requires
        input.len() == RegistrationRequestView::wire_len(suite),
        element_is_identity(suite.oprf, input),
    ensures
        RegistrationRequestView::deserialize(suite, input) == Err::<RegistrationRequestView, _>(
            ProtocolError::IdentityGroupElement,
        ),
{
}

/// A registration response whose evaluated element decodes to the identity
/// is refused as such.
pub proof fn lemma_registration_response_refuses_identity(suite: CipherSuite, input: Seq<u8>)
    requires
        input.len() == RegistrationResponseView::wire_len(suite),
        element_is_identity(suite.oprf, input.subrange(0, suite.noe() as int)),
    ensures
        RegistrationResponseView::deserialize(suite, input) == Err::<RegistrationResponseView, _>(
            ProtocolError::IdentityGroupElement,
        ),
{
}

/// A credential request whose blinded element decodes to the identity is
/// refused as such.
pub proof fn lemma_credential_request_refuses_identity(suite: CipherSuite, input: Seq<u8>)
    requires
        input.len() == CredentialRequestView::wire_len(suite),
        element_is_identity(suite.oprf, input.subrange(0, suite.noe() as int)),
    ensures
        CredentialRequestView::deserialize(suite, input) == Err::<CredentialRequestView, _>(
            ProtocolError::IdentityGroupElement,
        ),
{
}

/// A credential response whose evaluated element decodes to the identity
/// is refused as such.
pub proof fn lemma_credential_response_refuses_identity(suite: CipherSuite, input: Seq<u8>)
    requires
        input.len() == CredentialResponseView::wire_len(suite),
        element_is_identity(suite.oprf, input.subrange(0, suite.noe() as int)),
    ensures
        CredentialResponseView::deserialize(suite, input) == Err::<CredentialResponseView, _>(
            ProtocolError::IdentityGroupElement,
        ),
{
}

/// An envelope opens under the password, the server key and the
/// identities that it was sealed with, and gives back the export key and
/// the public key of the sealing.
pub proof fn lemma_seal_then_open(
    suite: CipherSuite,
    nonce: Seq<u8>,
    rp: Seq<u8>,
    server_s_pk: Seq<u8>,
    ids: Option<Identifiers>,
)
    requires
        spec_seal(suite, nonce, rp, server_s_pk, ids) is Ok,
    ensures
        ({
            let (envelope, client_s_pk, export_key) = spec_seal(
                suite,
                nonce,
                rp,
                server_s_pk,
                ids,
            ).unwrap();
            &&& envelope.mode == InnerEnvelopeMode::Internal
            &&& envelope.nonce == nonce
            &&& spec_open(suite, envelope, rp, server_s_pk, ids) matches Ok(opened)
            &&& opened.export_key == export_key
            &&& opened.client_static_keypair.public == client_s_pk
            &&& opened.id_u == spec_id_u(ids, client_s_pk)
            &&& opened.id_s == spec_id_s(ids, server_s_pk)
        }),
{
}

/// An envelope binds what it was sealed over. Opened with another server
/// key or other identities, it gives an invalid login, unless the MAC
/// fails to tell the altered data from the sealed data.
pub proof fn lemma_envelope_binds_server_key_and_identities(
    suite: CipherSuite,
    nonce: Seq<u8>,
    rp: Seq<u8>,
    server_s_pk: Seq<u8>,
    ids: Option<Identifiers>,
    other_server_s_pk: Seq<u8>,
    other_ids: Option<Identifiers>,
)
    requires
        spec_seal(suite, nonce, rp, server_s_pk, ids) is Ok,
        ({
            let (envelope, client_s_pk, _) = spec_seal(suite, nonce, rp, server_s_pk, ids).unwrap();
            &&& ids_fit(other_ids, client_s_pk, other_server_s_pk)
            &&& spec_hmac(
                suite.hash_of(),
                spec_auth_key(suite, rp, nonce).unwrap(),
                nonce + spec_aad_of(other_ids, client_s_pk, other_server_s_pk),
            ) != envelope.hmac
        }),
    ensures
        spec_open(
            suite,
            spec_seal(suite, nonce, rp, server_s_pk, ids).unwrap().0,
            rp,
            other_server_s_pk,
            other_ids,
        ) == Err::<OpenedEnvelopeView, _>(ProtocolError::InvalidLogin),
{
}

/// An envelope binds its own bytes. One that was altered gives an invalid
/// login, wherever a key pair can still be derived from its nonce, unless
/// the MAC fails to tell the altered envelope from the sealed one.
pub proof fn lemma_envelope_binds_its_bytes(
    suite: CipherSuite,
    altered: EnvelopeView,
    rp: Seq<u8>,
    server_s_pk: Seq<u8>,
    ids: Option<Identifiers>,
)
    requires
        altered.mode == InnerEnvelopeMode::Internal,
        spec_recover_keys(suite, rp, altered.nonce) is Ok,
        ids_fit(ids, spec_recover_keys(suite, rp, altered.nonce).unwrap().public, server_s_pk),
        spec_hmac(
            suite.hash_of(),
            spec_auth_key(suite, rp, altered.nonce).unwrap(),
            altered.nonce + spec_aad_of(
                ids,
                spec_recover_keys(suite, rp, altered.nonce).unwrap().public,
                server_s_pk,
            ),
        ) != altered.hmac,
    ensures
        spec_open(suite, altered, rp, server_s_pk, ids) == Err::<OpenedEnvelopeView, _>(
            ProtocolError::InvalidLogin,
        ),
{
}

/// Whether two private keys give one Diffie-Hellman value, each with the
/// public key of the other.
pub open spec fn dh_agrees(group: KeGroup, a_sk: Seq<u8>, b_sk: Seq<u8>) -> bool {
    spec_diffie_hellman(group, a_sk, spec_public_key(group, b_sk)) == spec_diffie_hellman(
        group,
        b_sk,
        spec_public_key(group, a_sk),
    )
}

/// What the client recovers from the server's answer is what the server
/// put in: with the pad that masked them, the server's public key and the
/// record's envelope come out again.
pub proof fn lemma_unmask_inverts_mask(
    suite: CipherSuite,
    server_s_pk: Seq<u8>,
    record: RegistrationUploadView,
    masking_nonce: Seq<u8>,
)
    requires
        server_s_pk.len() == suite.npk(),
        spec_masked_response(suite, server_s_pk, record, masking_nonce) is Ok,
    ensures
        ({
            let masked = spec_masked_response(suite, server_s_pk, record, masking_nonce).unwrap();
            let pad = spec_credential_response_pad(
                suite,
                record.masking_key,
                masking_nonce,
            ).unwrap();
            let plaintext = xor(masked, pad);
            &&& masked.len() == suite.npk() + record.envelope.serialize().len()
            &&& plaintext.subrange(0, suite.npk() as int) == server_s_pk
            &&& plaintext.subrange(suite.npk() as int, plaintext.len() as int)
                == record.envelope.serialize()
        }),
{
    let pad = spec_credential_response_pad(suite, record.masking_key, masking_nonce).unwrap();
    let plaintext = server_s_pk + record.envelope.serialize();
    lemma_xor_involution(plaintext, pad);
}

/// A login with the registered password succeeds, and both sides hold one
/// session key; the client holds the export key of the registration and
/// the server's public key.
///
/// This holds wherever the two groups behave as groups do: the OPRF
/// output of the login is the one of the registration, whatever the
/// blinds, and each of the three Diffie-Hellman values is the same from
/// both sides.
pub proof fn lemma_login_after_registration_agrees(
    suite: CipherSuite,
    setup: ServerSetupView,
    password: Seq<u8>,
    ids: Option<Identifiers>,
    context: Seq<u8>,
    credential_identifier: Seq<u8>,
    registration_blind: Seq<u8>,
    envelope_nonce: Seq<u8>,
    registration_request: RegistrationRequestView,
    registration_response: RegistrationResponseView,
    record: RegistrationUploadView,
    export_key: Seq<u8>,
    masking_nonce: Seq<u8>,
    server_e_sk: Seq<u8>,
    server_nonce: Seq<u8>,
    client: ClientLoginView,
    request: CredentialRequestView,
    state: Ke2StateView,
    response: CredentialResponseView,
)
    requires
        setup.wf(suite),
        record.wf(suite),
        response.wf(suite),
        masking_nonce.len() == NONCE_LEN,
        spec_registration_start(suite, registration_blind, password) == Ok::<_, ProtocolError>(
            registration_request,
        ),
        spec_registration_response(suite, setup, registration_request, credential_identifier)
            == Ok::<_, ProtocolError>(registration_response),
        spec_registration_finish(
            suite,
            registration_blind,
            envelope_nonce,
            password,
            registration_response,
            ids,
        ) == Ok::<_, ProtocolError>((record, export_key)),
        spec_login_start(
            suite,
            client.blind,
            client.ke1_state.client_e_sk,
            client.ke1_state.client_nonce,
            password,
        ) == Ok::<_, ProtocolError>((client, request)),
        spec_server_login_start(
            suite,
            masking_nonce,
            server_e_sk,
            server_nonce,
            setup,
            Some(record),
            request,
            credential_identifier,
            ids,
            context,
        ) == Ok::<_, ProtocolError>((state, response)),
        spec_oprf_output(suite, password, client.blind, response.evaluation_element)
            == spec_oprf_output(
            suite,
            password,
            registration_blind,
            registration_response.evaluation_element,
        ),
        dh_agrees(suite.ke_group, client.ke1_state.client_e_sk, server_e_sk),
        dh_agrees(suite.ke_group, client.ke1_state.client_e_sk, setup.keypair.private),
        dh_agrees(
            suite.ke_group,
            spec_recover_keys(
                suite,
                spec_randomized_password(
                    suite,
                    spec_oprf_output(
                        suite,
                        password,
                        registration_blind,
                        registration_response.evaluation_element,
                    ).unwrap(),
                ),
                envelope_nonce,
            ).unwrap().private,
            server_e_sk,
        ),
    ensures
        spec_login_finish(suite, client, password, response, ids, context) matches Ok(result)
            && spec_server_login_finish(state, result.message) == Ok::<_, ProtocolError>(
            result.session_key,
        ) && result.session_key == state.session_key && result.export_key == export_key
            && result.server_s_pk == setup.keypair.public,
{
    let server_s_pk = setup.keypair.public;
    let output = spec_oprf_output(
        suite,
        password,
        registration_blind,
        registration_response.evaluation_element,
    ).unwrap();
    let rp = spec_randomized_password(suite, output);
    lemma_seal_then_open(suite, envelope_nonce, rp, server_s_pk, ids);
    lemma_unmask_inverts_mask(suite, server_s_pk, record, masking_nonce);
    lemma_envelope_round_trip(suite, record.envelope);
}

/// The export key does not depend on the key exchange. Two logins that
/// differ in nothing but the ephemeral keys, the nonces of the key
/// exchange, the context and the second message give one export key.
pub proof fn lemma_export_key_ignores_key_exchange(
    suite: CipherSuite,
    password: Seq<u8>,
    ids: Option<Identifiers>,
    first: ClientLoginView,
    first_response: CredentialResponseView,
    first_context: Seq<u8>,
    second: ClientLoginView,
    second_response: CredentialResponseView,
    second_context: Seq<u8>,
)
    requires
        first.blind == second.blind,
        first_response.evaluation_element == second_response.evaluation_element,
        first_response.masking_nonce == second_response.masking_nonce,
        first_response.masked_response == second_response.masked_response,
        spec_login_finish(suite, first, password, first_response, ids, first_context) is Ok,
        spec_login_finish(suite, second, password, second_response, ids, second_context) is Ok,
    ensures
        spec_login_finish(
            suite,
            first,
            password,
            first_response,
            ids,
            first_context,
        ).unwrap().export_key == spec_login_finish(
            suite,
            second,
            password,
            second_response,
            ids,
            second_context,
        ).unwrap().export_key,
{
}

/// The export key is stable. Two logins on one record, with fresh blinds
/// and fresh nonces, give one export key, wherever the OPRF output does
/// not depend on the blind.
pub proof fn lemma_export_key_is_stable(
    suite: CipherSuite,
    password: Seq<u8>,
    ids: Option<Identifiers>,
    server_s_pk: Seq<u8>,
    record: RegistrationUploadView,
    first: ClientLoginView,
    first_response: CredentialResponseView,
    first_context: Seq<u8>,
    second: ClientLoginView,
    second_response: CredentialResponseView,
    second_context: Seq<u8>,
)
    requires
        server_s_pk.len() == suite.npk(),
        spec_masked_response(suite, server_s_pk, record, first_response.masking_nonce)
            == Ok::<_, ProtocolError>(first_response.masked_response),
        spec_masked_response(suite, server_s_pk, record, second_response.masking_nonce)
            == Ok::<_, ProtocolError>(second_response.masked_response),
        spec_login_finish(suite, first, password, first_response, ids, first_context) is Ok,
        spec_login_finish(suite, second, password, second_response, ids, second_context) is Ok,
        spec_oprf_output(suite, password, first.blind, first_response.evaluation_element)
            == spec_oprf_output(suite, password, second.blind, second_response.evaluation_element),
        spec_masking_key(
            suite,
            spec_randomized_password(
                suite,
                spec_oprf_output(
                    suite,
                    password,
                    first.blind,
                    first_response.evaluation_element,
                ).unwrap(),
            ),
        ) == Some(record.masking_key),
    ensures
        spec_login_finish(
            suite,
            first,
            password,
            first_response,
            ids,
            first_context,
        ).unwrap().export_key == spec_login_finish(
            suite,
            second,
            password,
            second_response,
            ids,
            second_context,
        ).unwrap().export_key,
{
    lemma_unmask_inverts_mask(suite, server_s_pk, record, first_response.masking_nonce);
    lemma_unmask_inverts_mask(suite, server_s_pk, record, second_response.masking_nonce);
}

/// The answers to a known and to an unknown user have one length: every
/// well-formed credential response has the length that the suite fixes.
pub proof fn lemma_credential_responses_have_one_length(
    suite: CipherSuite,
    known: CredentialResponseView,
    unknown: CredentialResponseView,
)
    requires
        known.wf(suite),
        unknown.wf(suite),
    ensures
        known.serialize().len() == unknown.serialize().len(),
        known.serialize().len() == CredentialResponseView::wire_len(suite),
{
}

/// A login fails in one way. Once the response is well formed and the
/// OPRF gives an output, whatever makes the client's last step fail, a
/// wrong password, an unknown user, or a MAC that does not verify, the
/// failure is an invalid login.
pub proof fn lemma_login_fails_as_invalid_login(
    suite: CipherSuite,
    client: ClientLoginView,
    password: Seq<u8>,
    response: CredentialResponseView,
    ids: Option<Identifiers>,
    context: Seq<u8>,
)
    requires
        response.wf(suite),
        client.ke1_state.wf(suite),
        context.len() <= MAX_PREFIXED_LEN,
        chosen_ids_fit(ids),
        spec_finalize(suite.oprf, password, client.blind, response.evaluation_element) is Some,
        spec_login_finish(suite, client, password, response, ids, context) is Err,
    ensures
        spec_login_finish(suite, client, password, response, ids, context) == Err::<
            ClientLoginFinishResultView,
            _,
        >(ProtocolError::InvalidLogin),
{
}

/// The envelope that stands in for an unknown user never opens.
pub proof fn lemma_dummy_envelope_never_opens(
    suite: CipherSuite,
    rp: Seq<u8>,
    server_s_pk: Seq<u8>,
    ids: Option<Identifiers>,
)
    ensures
        EnvelopeView::dummy(suite).wf(suite),
        EnvelopeView::dummy(suite).serialize().len() == suite.envelope_len(),
        spec_open(suite, EnvelopeView::dummy(suite), rp, server_s_pk, ids) == Err::<
            OpenedEnvelopeView,
            _,
        >(ProtocolError::IncompatibleEnvelopeMode),
{
}

/// A password that does not open the envelope does not log in. Where the
/// randomized password that a password leads to does not unmask and open
/// what the response holds, the client's last step gives an invalid login.
pub proof fn lemma_password_that_does_not_open_is_refused(
    suite: CipherSuite,
    client: ClientLoginView,
    password: Seq<u8>,
    response: CredentialResponseView,
    ids: Option<Identifiers>,
    context: Seq<u8>,
)
    requires
        response.wf(suite),
        context.len() <= MAX_PREFIXED_LEN,
        chosen_ids_fit(ids),
        spec_finalize(suite.oprf, password, client.blind, response.evaluation_element) is Some,
        spec_unmask_and_open(
            suite,
            spec_randomized_password(
                suite,
                spec_finalize(
                    suite.oprf,
                    password,
                    client.blind,
                    response.evaluation_element,
                ).unwrap(),
            ),
            response,
            ids,
        ) is Err,
    ensures
        spec_login_finish(suite, client, password, response, ids, context) == Err::<
            ClientLoginFinishResultView,
            _,
        >(ProtocolError::InvalidLogin),
{
}

} // verus!
