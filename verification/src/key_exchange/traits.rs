//! What a key exchange offers to the login flow, and how its states and
//! messages go to bytes and back.

use rand::rngs::StdRng;
use vstd::prelude::*;

use crate::ciphersuite::CipherSuite;
use crate::errors::ProtocolError;

verus! {

/// A value that is read from its wire form.
pub trait FromBytes: Sized {
    /// Whether `input` is the wire form of a value under `suite`.
    spec fn accepts(suite: CipherSuite, input: Seq<u8>) -> bool;

    /// The wire form of the value.
    spec fn wire(&self) -> Seq<u8>;

    /// Reads a value from its wire form. Succeeds exactly on the strings
    /// that `accepts` holds of, with a value whose wire form is the input;
    /// fails with `SerializationError` on every other string.
    fn from_bytes(suite: CipherSuite, input: &[u8]) -> (r: Result<Self, ProtocolError>)
        ensures
            r is Ok <==> Self::accepts(suite, input@),
            r matches Ok(value) ==> value.wire() == input@,
            r matches Err(e) ==> e == ProtocolError::SerializationError,
    ;
}

/// A value that is written in its wire form.
pub trait ToBytes {
    /// The wire form of the value.
    spec fn spec_to_bytes(&self) -> Seq<u8>;

    /// Writes the value in its wire form.
    fn to_bytes(&self) -> (out: Vec<u8>)
        ensures
            out@ == self.spec_to_bytes(),
    ;
}

/// A three-message authenticated key exchange. The client sends the first
/// message and keeps a state; the server answers with the second and keeps
/// a state; the client answers with the third and has the session key; the
/// server checks the third and has the session key.
pub trait KeyExchange {
    type KE1State: FromBytes + ToBytes + Clone;

    type KE2State: FromBytes + ToBytes + Clone;

    type KE1Message: FromBytes + ToBytes + Clone;

    type KE2Message: FromBytes + ToBytes + Clone;

    type KE3Message: FromBytes + ToBytes + Clone;

    /// The client's first message and the state that it keeps. The message
    /// has the length that `ke1_message_len` gives.
    fn generate_ke1(suite: CipherSuite, rng: &mut StdRng) -> (r: Result<
        (Self::KE1State, Self::KE1Message),
        ProtocolError,
    >)
        ensures
            r matches Ok((_, message)) ==> message.spec_to_bytes().len()
                == suite.ke1_message_len(),
    ;

    /// The server's answer to the first message and the state that it
    /// keeps. The message has the length that `ke2_message_len` gives.
    fn generate_ke2(
        suite: CipherSuite,
        rng: &mut StdRng,
        l1_bytes: &[u8],
        l2_bytes: &[u8],
        ke1_message: &Self::KE1Message,
        client_s_pk: &[u8],
        server_s_sk: &[u8],
        id_u: &[u8],
        id_s: &[u8],
        context: &[u8],
    ) -> (r: Result<(Self::KE2State, Self::KE2Message), ProtocolError>)
        ensures
            r matches Ok((_, message)) ==> message.spec_to_bytes().len()
                == suite.ke2_message_len(),
    ;

    /// The session key and the client's answer to the second message. The
    /// session key has the length of a digest and the message the length
    /// that `ke3_message_len` gives.
    fn generate_ke3(
        suite: CipherSuite,
        l2_component: &[u8],
        ke2_message: &Self::KE2Message,
        ke1_state: &Self::KE1State,
        serialized_credential_request: &[u8],
        server_s_pk: &[u8],
        client_s_sk: &[u8],
        id_u: &[u8],
        id_s: &[u8],
        context: &[u8],
    ) -> (r: Result<(Vec<u8>, Self::KE3Message), ProtocolError>)
        ensures
            r matches Ok((session_key, message)) ==> session_key@.len() == suite.nh()
                && message.spec_to_bytes().len() == suite.ke3_message_len(),
    ;

    /// The session key, once the third message is found to be the one that
    /// the server expects.
    fn finish_ke(
        suite: CipherSuite,
        ke3_message: &Self::KE3Message,
        ke2_state: &Self::KE2State,
    ) -> (r: Result<Vec<u8>, ProtocolError>)
        ensures
            r matches Err(e) ==> e == ProtocolError::InvalidLogin,
    ;

    /// Length of the second message.
    fn ke2_message_size(suite: CipherSuite) -> (n: usize)
        ensures
            n == suite.ke2_message_len(),
    ;
}

} // verus!
