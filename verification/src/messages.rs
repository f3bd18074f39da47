//! The messages of the registration and of the login, and their wire
//! forms. Each wire form is the concatenation of the message's fields, and
//! each has one length per ciphersuite.

use vstd::prelude::*;

use crate::bytes::{append, concat2, concat3, copy_of, copy_range};
use crate::ciphersuite::{CipherSuite, OprfSuite, NONCE_LEN};
use crate::envelope::{Envelope, EnvelopeView, InnerEnvelopeMode};
use crate::errors::ProtocolError;
use crate::key_exchange::traits::{FromBytes, ToBytes};
use crate::key_exchange::tripledh::{
    Ke1Message,
    Ke1MessageView,
    Ke2Message,
    Ke2MessageView,
    Ke3Message,
    Ke3MessageView,
};
use crate::primitives::group::{is_public_key, pk_valid};
use crate::primitives::oprf::{element_is_identity, element_valid, is_element, is_identity_element};

verus! {

/// What is found of a string that is to be an element of the OPRF group:
/// a string of another length is refused, one that decodes to the identity
/// is told apart, and so is one that does not decode.
pub open spec fn spec_check_element(oprf: OprfSuite, bytes: Seq<u8>) -> Result<(), ProtocolError> {
    if bytes.len() != oprf.element_len() {
        Err(ProtocolError::SerializationError)
    } else if element_is_identity(oprf, bytes) {
        Err(ProtocolError::IdentityGroupElement)
    } else if !element_valid(oprf, bytes) {
        Err(ProtocolError::SerializationError)
    } else {
        Ok(())
    }
}

/// Whether `bytes` is accepted as an element of the OPRF group: a valid
/// encoding of an element that is not the identity.
pub open spec fn element_accepted(oprf: OprfSuite, bytes: Seq<u8>) -> bool {
    spec_check_element(oprf, bytes) is Ok
}

/// Checks a string that is to be an element of the OPRF group.
pub fn check_element(oprf: OprfSuite, bytes: &[u8]) -> (r: Result<(), ProtocolError>)
    ensures
        r == spec_check_element(oprf, bytes@),
{
    if bytes.len() != oprf.element_size() {
        return Err(ProtocolError::SerializationError);
    }
    if is_identity_element(oprf, bytes) {
        return Err(ProtocolError::IdentityGroupElement);
    }
    if !is_element(oprf, bytes) {
        return Err(ProtocolError::SerializationError);
    }
    Ok(())
}

/// The message that starts a registration: the blinded password.
#[derive(Clone, Debug)]
pub struct RegistrationRequest {
    pub blinded_element: Vec<u8>,
}

/// The server's answer to a registration request: the evaluated element
/// and the server's static public key.
#[derive(Clone, Debug)]
pub struct RegistrationResponse {
    pub evaluation_element: Vec<u8>,
    pub server_s_pk: Vec<u8>,
}

/// The message that ends a registration, and the record that the server
/// stores: the envelope, the masking key, and the client's public key.
#[derive(Debug)]
pub struct RegistrationUpload {
    pub envelope: Envelope,
    pub masking_key: Vec<u8>,
    pub client_s_pk: Vec<u8>,
}

/// The message that starts a login: the blinded password and the first
/// message of the key exchange.
#[derive(Clone, Debug)]
pub struct CredentialRequest {
    pub blinded_element: Vec<u8>,
    pub ke1_message: Ke1Message,
}

/// The server's answer to a credential request: the evaluated element, the
/// masking nonce, the masked record, and the second message of the key
/// exchange.
#[derive(Clone, Debug)]
pub struct CredentialResponse {
    pub evaluation_element: Vec<u8>,
    pub masking_nonce: Vec<u8>,
    pub masked_response: Vec<u8>,
    pub ke2_message: Ke2Message,
}

/// The message that ends a login: the third message of the key exchange.
#[derive(Clone, Debug)]
pub struct CredentialFinalization {
    pub ke3_message: Ke3Message,
}

/// What a `RegistrationRequest` holds.
pub struct RegistrationRequestView {
    pub blinded_element: Seq<u8>,
}

/// What a `RegistrationResponse` holds.
pub struct RegistrationResponseView {
    pub evaluation_element: Seq<u8>,
    pub server_s_pk: Seq<u8>,
}

/// What a `RegistrationUpload` holds.
pub struct RegistrationUploadView {
    pub envelope: EnvelopeView,
    pub masking_key: Seq<u8>,
    pub client_s_pk: Seq<u8>,
}

/// What a `CredentialRequest` holds.
pub struct CredentialRequestView {
    pub blinded_element: Seq<u8>,
    pub ke1_message: Ke1MessageView,
}

/// What a `CredentialResponse` holds.
pub struct CredentialResponseView {
    pub evaluation_element: Seq<u8>,
    pub masking_nonce: Seq<u8>,
    pub masked_response: Seq<u8>,
    pub ke2_message: Ke2MessageView,
}

/// What a `CredentialFinalization` holds.
pub struct CredentialFinalizationView {
    pub ke3_message: Ke3MessageView,
}

impl View for RegistrationRequest {
    type V = RegistrationRequestView;

    open spec fn view(&self) -> RegistrationRequestView {
        RegistrationRequestView { blinded_element: self.blinded_element@ }
    }
}

impl View for RegistrationResponse {
    type V = RegistrationResponseView;

    open spec fn view(&self) -> RegistrationResponseView {
        RegistrationResponseView {
            evaluation_element: self.evaluation_element@,
            server_s_pk: self.server_s_pk@,
        }
    }
}

impl View for RegistrationUpload {
    type V = RegistrationUploadView;

    open spec fn view(&self) -> RegistrationUploadView {
        RegistrationUploadView {
            envelope: self.envelope@,
            masking_key: self.masking_key@,
            client_s_pk: self.client_s_pk@,
        }
    }
}

impl View for CredentialRequest {
    type V = CredentialRequestView;

    open spec fn view(&self) -> CredentialRequestView {
        CredentialRequestView {
            blinded_element: self.blinded_element@,
            ke1_message: self.ke1_message@,
        }
    }
}

impl View for CredentialResponse {
    type V = CredentialResponseView;

    open spec fn view(&self) -> CredentialResponseView {
        CredentialResponseView {
            evaluation_element: self.evaluation_element@,
            masking_nonce: self.masking_nonce@,
            masked_response: self.masked_response@,
            ke2_message: self.ke2_message@,
        }
    }
}

impl View for CredentialFinalization {
    type V = CredentialFinalizationView;

    open spec fn view(&self) -> CredentialFinalizationView {
        CredentialFinalizationView { ke3_message: self.ke3_message@ }
    }
}

impl RegistrationRequestView {
    /// The blinded element is accepted by the OPRF group.
    pub open spec fn wf(self, suite: CipherSuite) -> bool {
        element_accepted(suite.oprf, self.blinded_element)
    }

    /// The wire form: the blinded element.
    pub open spec fn serialize(self) -> Seq<u8> {
        self.blinded_element
    }

    /// Length of the wire form.
    pub open spec fn wire_len(suite: CipherSuite) -> nat {
        suite.noe()
    }

    /// What a byte string is read as.
    pub open spec fn deserialize(suite: CipherSuite, input: Seq<u8>) -> Result<
        RegistrationRequestView,
        ProtocolError,
    > {
        match spec_check_element(suite.oprf, input) {
            Err(e) => Err(e),
            Ok(_) => Ok(RegistrationRequestView { blinded_element: input }),
        }
    }
}

impl RegistrationResponseView {
    /// The evaluated element is accepted by the OPRF group and the public
    /// key by the key-exchange group.
    pub open spec fn wf(self, suite: CipherSuite) -> bool {
        &&& element_accepted(suite.oprf, self.evaluation_element)
        &&& pk_valid(suite.ke_group, self.server_s_pk)
    }

    /// The wire form: the evaluated element, then the public key.
    pub open spec fn serialize(self) -> Seq<u8> {
        self.evaluation_element + self.server_s_pk
    }

    /// Length of the wire form.
    pub open spec fn wire_len(suite: CipherSuite) -> nat {
        suite.noe() + suite.npk()
    }

    /// What a byte string is read as. A string of another length than the
    /// wire form's is refused, then an element that is not accepted, then
    /// a public key that is none.
    pub open spec fn deserialize(suite: CipherSuite, input: Seq<u8>) -> Result<
        RegistrationResponseView,
        ProtocolError,
    > {
        let element = input.subrange(0, suite.noe() as int);
        let key = input.subrange(suite.noe() as int, input.len() as int);
        if input.len() != Self::wire_len(suite) {
            Err(ProtocolError::SerializationError)
        } else {
            match spec_check_element(suite.oprf, element) {
                Err(e) => Err(e),
                Ok(_) => if pk_valid(suite.ke_group, key) {
                    Ok(RegistrationResponseView { evaluation_element: element, server_s_pk: key })
                } else {
                    Err(ProtocolError::SerializationError)
                },
            }
        }
    }
}

impl RegistrationUploadView {
    /// The envelope and the masking key have their lengths and the public
    /// key is one of the key-exchange group.
    pub open spec fn wf(self, suite: CipherSuite) -> bool {
        &&& self.envelope.wf(suite)
        &&& self.masking_key.len() == suite.nh()
        &&& pk_valid(suite.ke_group, self.client_s_pk)
    }

    /// The wire form: the public key, the masking key, the envelope.
    pub open spec fn serialize(self) -> Seq<u8> {
        self.client_s_pk + self.masking_key + self.envelope.serialize()
    }

    /// Length of the wire form.
    pub open spec fn wire_len(suite: CipherSuite) -> nat {
        suite.npk() + suite.nh() + suite.envelope_len()
    }

    /// What a byte string is read as. Every refusal is a
    /// `SerializationError`.
    pub open spec fn deserialize(suite: CipherSuite, input: Seq<u8>) -> Result<
        RegistrationUploadView,
        ProtocolError,
    > {
        let key = input.subrange(0, suite.npk() as int);
        let masking_key = input.subrange(suite.npk() as int, suite.npk() + suite.nh() as int);
        let rest = input.subrange(suite.npk() + suite.nh() as int, input.len() as int);
        if input.len() != Self::wire_len(suite) || !pk_valid(suite.ke_group, key) {
            Err(ProtocolError::SerializationError)
        } else {
            Ok(
                RegistrationUploadView {
                    envelope: EnvelopeView {
                        mode: InnerEnvelopeMode::Internal,
                        nonce: rest.subrange(0, NONCE_LEN as int),
                        hmac: rest.subrange(NONCE_LEN as int, rest.len() as int),
                    },
                    masking_key,
                    client_s_pk: key,
                },
            )
        }
    }
}

impl CredentialRequestView {
    /// The blinded element is accepted by the OPRF group and the
    /// key-exchange message is well formed.
    pub open spec fn wf(self, suite: CipherSuite) -> bool {
        &&& element_accepted(suite.oprf, self.blinded_element)
        &&& self.ke1_message.wf(suite)
    }

    /// The wire form: the blinded element, then the key-exchange message.
    pub open spec fn serialize(self) -> Seq<u8> {
        self.blinded_element + self.ke1_message.serialize()
    }

    /// Length of the wire form.
    pub open spec fn wire_len(suite: CipherSuite) -> nat {
        suite.noe() + suite.ke1_message_len()
    }

    /// What a byte string is read as. A string shorter than an element is
    /// refused, then an element that is not accepted, then a rest that is
    /// no key-exchange message.
    pub open spec fn deserialize(suite: CipherSuite, input: Seq<u8>) -> Result<
        CredentialRequestView,
        ProtocolError,
    > {
        let element = input.subrange(0, suite.noe() as int);
        let rest = input.subrange(suite.noe() as int, input.len() as int);
        if input.len() < suite.noe() {
            Err(ProtocolError::SerializationError)
        } else {
            match spec_check_element(suite.oprf, element) {
                Err(e) => Err(e),
                Ok(_) => if Ke1Message::accepts(suite, rest) {
                    Ok(
                        CredentialRequestView {
                            blinded_element: element,
                            ke1_message: Ke1MessageView::parse(rest),
                        },
                    )
                } else {
                    Err(ProtocolError::SerializationError)
                },
            }
        }
    }
}

impl CredentialResponseView {
    /// The evaluated element is accepted by the OPRF group, the nonce and
    /// the masked record have their lengths, and the key-exchange message
    /// is well formed.
    pub open spec fn wf(self, suite: CipherSuite) -> bool {
        &&& element_accepted(suite.oprf, self.evaluation_element)
        &&& self.masking_nonce.len() == NONCE_LEN
        &&& self.masked_response.len() == suite.masked_response_len()
        &&& self.ke2_message.wf(suite)
    }

    /// The part of the wire form that precedes the key-exchange message:
    /// the evaluated element, the masking nonce, the masked record.
    pub open spec fn serialize_without_ke(self) -> Seq<u8> {
        self.evaluation_element + self.masking_nonce + self.masked_response
    }

    /// The wire form: the evaluated element, the masking nonce, the masked
    /// record, the key-exchange message.
    pub open spec fn serialize(self) -> Seq<u8> {
        self.serialize_without_ke() + self.ke2_message.serialize()
    }

    /// Length of the part that precedes the key-exchange message.
    pub open spec fn without_ke_len(suite: CipherSuite) -> nat {
        suite.noe() + NONCE_LEN as nat + suite.masked_response_len()
    }

    /// Length of the wire form.
    pub open spec fn wire_len(suite: CipherSuite) -> nat {
        Self::without_ke_len(suite) + suite.ke2_message_len()
    }

    /// What a byte string is read as. A string shorter than the wire form
    /// is refused, then an element that is not accepted, then a rest that
    /// is no key-exchange message.
    pub open spec fn deserialize(suite: CipherSuite, input: Seq<u8>) -> Result<
        CredentialResponseView,
        ProtocolError,
    > {
        let nonce_start = suite.noe() as int;
        let masked_start = nonce_start + NONCE_LEN;
        let ke_start = masked_start + suite.masked_response_len();
        let element = input.subrange(0, nonce_start);
        let rest = input.subrange(ke_start, input.len() as int);
        if input.len() < Self::wire_len(suite) {
            Err(ProtocolError::SerializationError)
        } else {
            match spec_check_element(suite.oprf, element) {
                Err(e) => Err(e),
                Ok(_) => if Ke2Message::accepts(suite, rest) {
                    Ok(
                        CredentialResponseView {
                            evaluation_element: element,
                            masking_nonce: input.subrange(nonce_start, masked_start),
                            masked_response: input.subrange(masked_start, ke_start),
                            ke2_message: Ke2MessageView::parse(suite, rest),
                        },
                    )
                } else {
                    Err(ProtocolError::SerializationError)
                },
            }
        }
    }
}

impl CredentialFinalizationView {
    /// The key-exchange message is well formed.
    pub open spec fn wf(self, suite: CipherSuite) -> bool {
        self.ke3_message.wf(suite)
    }

    /// The wire form: the key-exchange message.
    pub open spec fn serialize(self) -> Seq<u8> {
        self.ke3_message.serialize()
    }

    /// Length of the wire form.
    pub open spec fn wire_len(suite: CipherSuite) -> nat {
        suite.ke3_message_len()
    }

    /// What a byte string is read as.
    pub open spec fn deserialize(suite: CipherSuite, input: Seq<u8>) -> Result<
        CredentialFinalizationView,
        ProtocolError,
    > {
        if input.len() != Self::wire_len(suite) {
            Err(ProtocolError::SerializationError)
        } else {
            Ok(CredentialFinalizationView { ke3_message: Ke3MessageView { mac: input } })
        }
    }
}

impl RegistrationRequest {
    /// The blinded element, as the message holds it.
    pub fn get_blinded_element_for_testing(&self) -> (element: Vec<u8>)
        ensures
            element@ == self@.blinded_element,
    {
        copy_of(self.blinded_element.as_slice())
    }

    /// The wire form of the message.
    pub fn serialize(&self) -> (out: Vec<u8>)
        ensures
            out@ == self@.serialize(),
    {
        copy_of(self.blinded_element.as_slice())
    }

    /// Reads the message from its wire form.
    pub fn deserialize(suite: CipherSuite, input: &[u8]) -> (r: Result<Self, ProtocolError>)
        ensures
            r matches Ok(message) ==> RegistrationRequestView::deserialize(suite, input@) == Ok::<
                _,
                ProtocolError,
            >(message@) && message@.wf(suite),
            r matches Err(e) ==> RegistrationRequestView::deserialize(suite, input@) == Err::<
                RegistrationRequestView,
                _,
            >(e),
    {
        check_element(suite.oprf, input)?;
        Ok(Self { blinded_element: copy_of(input) })
    }
}

impl RegistrationResponse {
    /// The wire form of the message.
    pub fn serialize(&self) -> (out: Vec<u8>)
        ensures
            out@ == self@.serialize(),
    {
        concat2(self.evaluation_element.as_slice(), self.server_s_pk.as_slice())
    }

    /// Reads the message from its wire form.
    pub fn deserialize(suite: CipherSuite, input: &[u8]) -> (r: Result<Self, ProtocolError>)
        ensures
            r matches Ok(message) ==> RegistrationResponseView::deserialize(suite, input@) == Ok::<
                _,
                ProtocolError,
            >(message@) && message@.wf(suite),
            r matches Err(e) ==> RegistrationResponseView::deserialize(suite, input@) == Err::<
                RegistrationResponseView,
                _,
            >(e),
    {
        let elem_len = suite.oprf.element_size();
        let key_len = suite.ke_group.pk_size();
        if input.len() != elem_len + key_len {
            return Err(ProtocolError::SerializationError);
        }
        let evaluation_element = copy_range(input, 0, elem_len);
        check_element(suite.oprf, evaluation_element.as_slice())?;
        let server_s_pk = copy_range(input, elem_len, input.len());
        if !is_public_key(suite.ke_group, server_s_pk.as_slice()) {
            return Err(ProtocolError::SerializationError);
        }
        Ok(Self { evaluation_element, server_s_pk })
    }

    /// The same message with another evaluated element, which is not
    /// checked.
    pub fn set_evaluation_element_for_testing(&self, beta: &[u8]) -> (message: Self)
        ensures
            message@.evaluation_element == beta@,
            message@.server_s_pk == self@.server_s_pk,
    {
        Self { evaluation_element: copy_of(beta), server_s_pk: copy_of(self.server_s_pk.as_slice()) }
    }
}

impl RegistrationUpload {
    /// The wire form of the message.
    pub fn serialize(&self) -> (out: Vec<u8>)
        ensures
            out@ == self@.serialize(),
    {
        let envelope = self.envelope.serialize();
        concat3(self.client_s_pk.as_slice(), self.masking_key.as_slice(), envelope.as_slice())
    }

    /// Reads the message from its wire form.
    pub fn deserialize(suite: CipherSuite, input: &[u8]) -> (r: Result<Self, ProtocolError>)
        ensures
            r matches Ok(message) ==> RegistrationUploadView::deserialize(suite, input@) == Ok::<
                _,
                ProtocolError,
            >(message@) && message@.wf(suite),
            r matches Err(e) ==> RegistrationUploadView::deserialize(suite, input@) == Err::<
                RegistrationUploadView,
                _,
            >(e),
    {
        let key_len = suite.ke_group.pk_size();
        let hash_len = suite.hash_size();
        if input.len() < key_len + hash_len {
            return Err(ProtocolError::SerializationError);
        }
        let rest = copy_range(input, key_len + hash_len, input.len());
        let envelope = Envelope::deserialize(suite, rest.as_slice())?;
        let masking_key = copy_range(input, key_len, key_len + hash_len);
        let client_s_pk = copy_range(input, 0, key_len);
        if !is_public_key(suite.ke_group, client_s_pk.as_slice()) {
            return Err(ProtocolError::SerializationError);
        }
        Ok(Self { envelope, masking_key, client_s_pk })
    }

    /// The record that stands in for an unknown user: the dummy envelope,
    /// the given masking key, and the given public key in the place of the
    /// client's.
    pub fn dummy(suite: CipherSuite, masking_key: &[u8], fake_pk: &[u8]) -> (record: Self)
        ensures
            record@.envelope == EnvelopeView::dummy(suite),
            record@.masking_key == masking_key@,
            record@.client_s_pk == fake_pk@,
    {
        Self {
            envelope: Envelope::dummy(suite),
            masking_key: copy_of(masking_key),
            client_s_pk: copy_of(fake_pk),
        }
    }
}

impl CredentialRequest {
    /// The wire form of the message.
    pub fn serialize(&self) -> (out: Vec<u8>)
        ensures
            out@ == self@.serialize(),
    {
        let ke1 = self.ke1_message.to_bytes();
        concat2(self.blinded_element.as_slice(), ke1.as_slice())
    }

    /// Reads the message from its wire form.
    pub fn deserialize(suite: CipherSuite, input: &[u8]) -> (r: Result<Self, ProtocolError>)
        ensures
            r matches Ok(message) ==> CredentialRequestView::deserialize(suite, input@) == Ok::<
                _,
                ProtocolError,
            >(message@) && message@.wf(suite),
            r matches Err(e) ==> CredentialRequestView::deserialize(suite, input@) == Err::<
                CredentialRequestView,
                _,
            >(e),
    {
        let elem_len = suite.oprf.element_size();
        if input.len() < elem_len {
            return Err(ProtocolError::SerializationError);
        }
        let blinded_element = copy_range(input, 0, elem_len);
        check_element(suite.oprf, blinded_element.as_slice())?;
        let rest = copy_range(input, elem_len, input.len());
        let ke1_message = Ke1Message::from_bytes(suite, rest.as_slice())?;
        Ok(Self { blinded_element, ke1_message })
    }

    /// The blinded element, as the message holds it.
    pub fn get_blinded_element_for_testing(&self) -> (element: Vec<u8>)
        ensures
            element@ == self@.blinded_element,
    {
        copy_of(self.blinded_element.as_slice())
    }
}

impl CredentialResponse {
    /// The wire form of the message.
    pub fn serialize(&self) -> (out: Vec<u8>)
        ensures
            out@ == self@.serialize(),
    {
        let mut out = self.serialize_without_ke();
        let ke2 = self.ke2_message.to_bytes();
        append(&mut out, ke2.as_slice());
        out
    }

    /// The part of the wire form that precedes the key-exchange message.
    pub fn serialize_without_ke(&self) -> (out: Vec<u8>)
        ensures
            out@ == self@.serialize_without_ke(),
    {
        concat3(
            self.evaluation_element.as_slice(),
            self.masking_nonce.as_slice(),
            self.masked_response.as_slice(),
        )
    }

    /// Reads the message from its wire form.
    pub fn deserialize(suite: CipherSuite, input: &[u8]) -> (r: Result<Self, ProtocolError>)
        ensures
            r matches Ok(message) ==> CredentialResponseView::deserialize(suite, input@) == Ok::<
                _,
                ProtocolError,
            >(message@) && message@.wf(suite),
            r matches Err(e) ==> CredentialResponseView::deserialize(suite, input@) == Err::<
                CredentialResponseView,
                _,
            >(e),
    {
        let elem_len = suite.oprf.element_size();
        let nonce_len = NONCE_LEN;
        let masked_response_len = suite.masked_response_size();
        let ke2_message_len = suite.ke2_message_size();
        if input.len() < elem_len + nonce_len + masked_response_len + ke2_message_len {
            return Err(ProtocolError::SerializationError);
        }
        let evaluation_element = copy_range(input, 0, elem_len);
        check_element(suite.oprf, evaluation_element.as_slice())?;
        let masking_nonce = copy_range(input, elem_len, elem_len + nonce_len);
        let masked_response = copy_range(
            input,
            elem_len + nonce_len,
            elem_len + nonce_len + masked_response_len,
        );
        let rest = copy_range(input, elem_len + nonce_len + masked_response_len, input.len());
        let ke2_message = Ke2Message::from_bytes(suite, rest.as_slice())?;
        Ok(Self { evaluation_element, masking_nonce, masked_response, ke2_message })
    }

    /// The same message with another evaluated element, which is not
    /// checked.
    pub fn set_evaluation_element_for_testing(&self, beta: &[u8]) -> (message: Self)
        ensures
            message@.evaluation_element == beta@,
            message@.masking_nonce == self@.masking_nonce,
            message@.masked_response == self@.masked_response,
            message@.ke2_message == self@.ke2_message,
    {
        Self {
            evaluation_element: copy_of(beta),
            masking_nonce: copy_of(self.masking_nonce.as_slice()),
            masked_response: copy_of(self.masked_response.as_slice()),
            ke2_message: Ke2Message {
                server_nonce: copy_of(self.ke2_message.server_nonce.as_slice()),
                server_e_pk: copy_of(self.ke2_message.server_e_pk.as_slice()),
                mac: copy_of(self.ke2_message.mac.as_slice()),
            },
        }
    }
}

impl CredentialFinalization {
    /// The wire form of the message.
    pub fn serialize(&self) -> (out: Vec<u8>)
        ensures
            out@ == self@.serialize(),
    {
        self.ke3_message.to_bytes()
    }

    /// Reads the message from its wire form. Fails with
    /// `SerializationError` exactly where `input` has another length than
    /// a MAC tag.
    pub fn deserialize(suite: CipherSuite, input: &[u8]) -> (r: Result<Self, ProtocolError>)
        ensures
            r matches Ok(message) ==> CredentialFinalizationView::deserialize(suite, input@)
                == Ok::<_, ProtocolError>(message@) && message@.wf(suite),
            r matches Err(e) ==> CredentialFinalizationView::deserialize(suite, input@) == Err::<
                CredentialFinalizationView,
                _,
            >(e),
    {
        let ke3_message = Ke3Message::from_bytes(suite, input)?;
        Ok(Self { ke3_message })
    }
}

} // verus!
