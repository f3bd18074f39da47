//! The ASCII labels of the key schedule, verbatim.

use vstd::prelude::*;

verus! {

/// Label of the key that authenticates an envelope. The bytes of `AuthKey`.
pub const STR_AUTH_KEY: [u8; 7] = [0x41, 0x75, 0x74, 0x68, 0x4b, 0x65, 0x79];

/// Label of the export key. The bytes of `ExportKey`.
pub const STR_EXPORT_KEY: [u8; 9] = [0x45, 0x78, 0x70, 0x6f, 0x72, 0x74, 0x4b, 0x65, 0x79];

/// Label of the seed of the client's static key pair. The bytes of `PrivateKey`.
pub const STR_PRIVATE_KEY: [u8; 10] = [0x50, 0x72, 0x69, 0x76, 0x61, 0x74, 0x65, 0x4b, 0x65, 0x79];

/// Domain separation tag under which the seed is hashed to the client's private key. The bytes of `OPAQUE-DeriveAuthKeyPair`.
pub const STR_OPAQUE_DERIVE_AUTH_KEY_PAIR: [u8; 24] = [0x4f, 0x50, 0x41, 0x51, 0x55, 0x45, 0x2d, 0x44, 0x65, 0x72, 0x69, 0x76, 0x65, 0x41, 0x75, 0x74, 0x68, 0x4b, 0x65, 0x79, 0x50, 0x61, 0x69, 0x72];

/// Label of the key that masks a credential response. The bytes of `MaskingKey`.
pub const STR_MASKING_KEY: [u8; 10] = [0x4d, 0x61, 0x73, 0x6b, 0x69, 0x6e, 0x67, 0x4b, 0x65, 0x79];

/// Label of the pad that is XORed over a credential response. The bytes of `CredentialResponsePad`.
pub const STR_CREDENTIAL_RESPONSE_PAD: [u8; 21] = [0x43, 0x72, 0x65, 0x64, 0x65, 0x6e, 0x74, 0x69, 0x61, 0x6c, 0x52, 0x65, 0x73, 0x70, 0x6f, 0x6e, 0x73, 0x65, 0x50, 0x61, 0x64];

/// Label of the seed of a user's OPRF key. The bytes of `OprfKey`.
pub const STR_OPRF_KEY: [u8; 7] = [0x4f, 0x70, 0x72, 0x66, 0x4b, 0x65, 0x79];

/// Label of the handshake secret. The bytes of `HandshakeSecret`.
pub const STR_HANDSHAKE_SECRET: [u8; 15] = [0x48, 0x61, 0x6e, 0x64, 0x73, 0x68, 0x61, 0x6b, 0x65, 0x53, 0x65, 0x63, 0x72, 0x65, 0x74];

/// Label of the session key. The bytes of `SessionKey`.
pub const STR_SESSION_KEY: [u8; 10] = [0x53, 0x65, 0x73, 0x73, 0x69, 0x6f, 0x6e, 0x4b, 0x65, 0x79];

/// Label of the key of the server's MAC. The bytes of `ServerMAC`.
pub const STR_SERVER_MAC: [u8; 9] = [0x53, 0x65, 0x72, 0x76, 0x65, 0x72, 0x4d, 0x41, 0x43];

/// Label of the key of the client's MAC. The bytes of `ClientMAC`.
pub const STR_CLIENT_MAC: [u8; 9] = [0x43, 0x6c, 0x69, 0x65, 0x6e, 0x74, 0x4d, 0x41, 0x43];

/// Prefix of the transcript and of every key-schedule label. The bytes of `OPAQUE-`.
pub const STR_OPAQUE: [u8; 7] = [0x4f, 0x50, 0x41, 0x51, 0x55, 0x45, 0x2d];

} // verus!
