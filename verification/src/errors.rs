//! The failures that cross the interface of the protocol.

use vstd::prelude::*;

verus! {

/// What a protocol operation reports when it does not succeed.
#[derive(Clone, Copy, Debug, PartialEq, Eq, Structural)]
pub enum ProtocolError {
    /// The login failed: wrong password, unknown user, or a MAC that does
    /// not verify. The causes are deliberately not told apart.
    InvalidLogin,
    /// A message does not fit the state it was handed to. States are
    /// consumed by the step that takes them, so no function of this
    /// library has occasion to report it.
    InvalidMessage,
    /// An OPRF element decoded to the identity of the group.
    IdentityGroupElement,
    /// Wrong length, or an encoding that the group rejects.
    SerializationError,
    /// An envelope that is not in `Internal` mode was opened.
    IncompatibleEnvelopeMode,
    /// HKDF refused its key or the requested length.
    HkdfError,
    /// HMAC refused its key. HMAC takes a key of any length, so no
    /// function of this library has occasion to report it.
    HmacError,
    /// A primitive failed on input that the protocol itself produced.
    InternalError,
}

impl ProtocolError {
    /// A fixed description of the failure; it never depends on secret data.
    pub fn description(&self) -> (text: &'static str)
        ensures
            text@ == Self::description_of(*self)@,
    {
        match self {
            ProtocolError::InvalidLogin => "invalid login",
            ProtocolError::InvalidMessage => "invalid message",
            ProtocolError::IdentityGroupElement => "identity group element",
            ProtocolError::SerializationError => "serialization error",
            ProtocolError::IncompatibleEnvelopeMode => "incompatible envelope mode",
            ProtocolError::HkdfError => "HKDF error",
            ProtocolError::HmacError => "HMAC error",
            ProtocolError::InternalError => "internal error",
        }
    }

    /// The text that `description` returns for each failure.
    pub open spec fn description_of(e: ProtocolError) -> &'static str {
        match e {
            ProtocolError::InvalidLogin => "invalid login",
            ProtocolError::InvalidMessage => "invalid message",
            ProtocolError::IdentityGroupElement => "identity group element",
            ProtocolError::SerializationError => "serialization error",
            ProtocolError::IncompatibleEnvelopeMode => "incompatible envelope mode",
            ProtocolError::HkdfError => "HKDF error",
            ProtocolError::HmacError => "HMAC error",
            ProtocolError::InternalError => "internal error",
        }
    }
}

} // verus!
