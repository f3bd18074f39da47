//! Wire forms, and the inputs that each failure comes from.

use opaque_ke::bytes::{concat2, concat3, copy_range, encode_len_2, xor_bytes, zero_bytes};
use opaque_ke::ciphersuite::{CipherSuite, HashAlg, KeGroup, OprfSuite, NONCE_LEN};
use opaque_ke::envelope::{construct_aad, Envelope, InnerEnvelopeMode};
use opaque_ke::errors::ProtocolError;
use opaque_ke::identifiers::{bytestrings_from_identifiers, Identifiers};
use opaque_ke::key_exchange::traits::{FromBytes, KeyExchange, ToBytes};
use opaque_ke::key_exchange::tripledh::{
    build_preamble, Ke1Message, Ke1State, Ke2Message, Ke2State, Ke3Message, TripleDh,
};
use opaque_ke::keypair::KeyPair;
use opaque_ke::messages::{
    check_element, CredentialFinalization, CredentialRequest, CredentialResponse,
    RegistrationRequest, RegistrationResponse, RegistrationUpload,
};
use opaque_ke::opaque::{
    ksf, oprf_key, randomized_password, ClientLogin, ClientRegistration, ServerLogin,
    ServerRegistration, ServerSetup,
};
use opaque_ke::primitives::group::{diffie_hellman, is_public_key, public_key, random_scalar};
use opaque_ke::primitives::hash::hkdf_extract;
use opaque_ke::primitives::oprf::{
    blind, blind_evaluate, derive_key, finalize, hash_to_scalar, is_element, is_identity_element,
};
use rand::rngs::StdRng;
use rand::SeedableRng;
use voprf::Group;

const PASSWORD: &[u8] = b"hunter2";
const CONTEXT: &[u8] = b"wire";

fn ristretto() -> CipherSuite {
    CipherSuite { oprf: OprfSuite::Ristretto255Sha512, ke_group: KeGroup::Ristretto255 }
}

fn curve25519() -> CipherSuite {
    CipherSuite { oprf: OprfSuite::Ristretto255Sha512, ke_group: KeGroup::Curve25519 }
}

fn p256() -> CipherSuite {
    CipherSuite { oprf: OprfSuite::P256Sha256, ke_group: KeGroup::P256 }
}

fn suites() -> Vec<CipherSuite> {
    vec![ristretto(), curve25519(), p256()]
}

struct Flights {
    registration_request: RegistrationRequest,
    registration_response: RegistrationResponse,
    registration_upload: RegistrationUpload,
    credential_request: CredentialRequest,
    credential_response: CredentialResponse,
    credential_finalization: CredentialFinalization,
}

fn flights(suite: CipherSuite, seed: u64) -> Flights {
    let mut rng = StdRng::seed_from_u64(seed);
    let setup = ServerSetup::new(suite, &mut rng).unwrap();
    let (client, registration_request) =
        ClientRegistration::start(suite, &mut rng, PASSWORD).unwrap();
    let registration_response =
        ServerRegistration::start(suite, &setup, &registration_request, b"user").unwrap();
    let (registration_upload, _) =
        client.finish(suite, &mut rng, PASSWORD, &registration_response, &None).unwrap();
    let record = ServerRegistration::deserialize(suite, &registration_upload.serialize()).unwrap();
    let (client, credential_request) = ClientLogin::start(suite, &mut rng, PASSWORD).unwrap();
    let (_, credential_response) = ServerLogin::start(
        suite, &mut rng, &setup, Some(&record), &credential_request, b"user", &None, CONTEXT,
    )
    .unwrap();
    let finished = client.finish(suite, PASSWORD, &credential_response, &None, CONTEXT).unwrap();
    Flights {
        registration_request,
        registration_response,
        registration_upload,
        credential_request,
        credential_response,
        credential_finalization: finished.message,
    }
}

#[test]
fn every_message_has_its_fixed_length() {
    for suite in suites() {
        let noe = suite.oprf.element_size();
        let npk = suite.ke_group.pk_size();
        let nh = suite.hash_size();
        let f = flights(suite, 21);
        assert_eq!(f.registration_request.serialize().len(), noe);
        assert_eq!(f.registration_response.serialize().len(), noe + npk);
        assert_eq!(f.registration_upload.serialize().len(), npk + nh + 32 + nh);
        assert_eq!(f.credential_request.serialize().len(), noe + 32 + npk);
        assert_eq!(
            f.credential_response.serialize().len(),
            noe + 32 + (npk + 32 + nh) + (32 + npk + nh)
        );
        assert_eq!(f.credential_response.serialize_without_ke().len(), noe + 32 + npk + 32 + nh);
        assert_eq!(f.credential_finalization.serialize().len(), nh);
        assert_eq!(Envelope::len(suite), 32 + nh);
        assert_eq!(Envelope::hmac_key_size(suite), nh);
        assert_eq!(Envelope::export_key_size(suite), nh);
    }
    assert_eq!(p256().oprf.element_size(), 33);
    assert_eq!(p256().ke_group.pk_size(), 33);
    assert_eq!(p256().hash_size(), 32);
    assert_eq!(p256().hash(), HashAlg::Sha256);
    assert_eq!(ristretto().oprf.element_size(), 32);
    assert_eq!(ristretto().hash_size(), 64);
    assert_eq!(ristretto().hash(), HashAlg::Sha512);
    assert_eq!(curve25519().ke_group.pk_size(), 32);
    assert_eq!(curve25519().ke_group.sk_size(), 32);
    assert_eq!(ristretto().oprf.scalar_size(), 32);
    assert_eq!(ristretto().envelope_size(), 96);
    assert_eq!(ristretto().masked_response_size(), 128);
    assert_eq!(ristretto().ke1_message_size(), 64);
    assert_eq!(ristretto().ke2_message_size(), 128);
    assert_eq!(NONCE_LEN, 32);
}

#[test]
fn every_message_reads_back_as_it_was_written() {
    for suite in suites() {
        let f = flights(suite, 22);
        let bytes = f.registration_request.serialize();
        let back = RegistrationRequest::deserialize(suite, &bytes).unwrap();
        assert_eq!(back.blinded_element, f.registration_request.blinded_element);
        assert_eq!(back.serialize(), bytes);
        assert_eq!(back.get_blinded_element_for_testing(), bytes);

        let bytes = f.registration_response.serialize();
        let back = RegistrationResponse::deserialize(suite, &bytes).unwrap();
        assert_eq!(back.evaluation_element, f.registration_response.evaluation_element);
        assert_eq!(back.server_s_pk, f.registration_response.server_s_pk);
        assert_eq!(back.serialize(), bytes);

        let bytes = f.registration_upload.serialize();
        let back = RegistrationUpload::deserialize(suite, &bytes).unwrap();
        assert_eq!(back.client_s_pk, f.registration_upload.client_s_pk);
        assert_eq!(back.masking_key, f.registration_upload.masking_key);
        assert_eq!(back.envelope.nonce, f.registration_upload.envelope.nonce);
        assert_eq!(back.envelope.hmac, f.registration_upload.envelope.hmac);
        assert_eq!(back.envelope.mode, InnerEnvelopeMode::Internal);
        assert_eq!(back.serialize(), bytes);

        let bytes = f.credential_request.serialize();
        let back = CredentialRequest::deserialize(suite, &bytes).unwrap();
        assert_eq!(back.blinded_element, f.credential_request.blinded_element);
        assert_eq!(back.ke1_message.client_nonce, f.credential_request.ke1_message.client_nonce);
        assert_eq!(back.ke1_message.client_e_pk, f.credential_request.ke1_message.client_e_pk);
        assert_eq!(back.serialize(), bytes);
        assert_eq!(back.get_blinded_element_for_testing(), back.blinded_element);

        let bytes = f.credential_response.serialize();
        let back = CredentialResponse::deserialize(suite, &bytes).unwrap();
        assert_eq!(back.evaluation_element, f.credential_response.evaluation_element);
        assert_eq!(back.masking_nonce, f.credential_response.masking_nonce);
        assert_eq!(back.masked_response, f.credential_response.masked_response);
        assert_eq!(back.ke2_message.to_bytes(), f.credential_response.ke2_message.to_bytes());
        assert_eq!(back.serialize(), bytes);

        let bytes = f.credential_finalization.serialize();
        let back = CredentialFinalization::deserialize(suite, &bytes).unwrap();
        assert_eq!(back.ke3_message.mac, f.credential_finalization.ke3_message.mac);
        assert_eq!(back.serialize(), bytes);
    }
}

#[test]
fn messages_of_another_length_are_refused() {
    for suite in suites() {
        let f = flights(suite, 23);
        let e = Some(ProtocolError::SerializationError);
        for shorten in [true, false] {
            let fit = |mut bytes: Vec<u8>| {
                if shorten {
                    bytes.pop();
                } else {
                    bytes.push(0);
                }
                bytes
            };
            let b = fit(f.registration_request.serialize());
            assert_eq!(RegistrationRequest::deserialize(suite, &b).err(), e);
            let b = fit(f.registration_response.serialize());
            assert_eq!(RegistrationResponse::deserialize(suite, &b).err(), e);
            let b = fit(f.registration_upload.serialize());
            assert_eq!(RegistrationUpload::deserialize(suite, &b).err(), e);
            let b = fit(f.credential_request.serialize());
            assert_eq!(CredentialRequest::deserialize(suite, &b).err(), e);
            let b = fit(f.credential_response.serialize());
            assert_eq!(CredentialResponse::deserialize(suite, &b).err(), e);
            let b = fit(f.credential_finalization.serialize());
            assert_eq!(CredentialFinalization::deserialize(suite, &b).err(), e);
            let b = fit(f.registration_upload.envelope.serialize());
            assert_eq!(Envelope::deserialize(suite, &b).err(), e);
        }
        assert_eq!(RegistrationRequest::deserialize(suite, &[]).err(), e);
        assert_eq!(CredentialRequest::deserialize(suite, &[1, 2, 3]).err(), e);
        assert_eq!(Envelope::deserialize(suite, &[0u8; 31]).err(), e);
    }
}

#[test]
fn identity_elements_are_refused_as_such() {
    // The identity of ristretto255 is encoded as 32 zero bytes.
    let suite = ristretto();
    let f = flights(suite, 24);
    let identity = [0u8; 32];
    let e = Some(ProtocolError::IdentityGroupElement);
    assert!(is_identity_element(suite.oprf, &identity));
    assert!(!is_element(suite.oprf, &identity));
    assert_eq!(check_element(suite.oprf, &identity).err(), e);
    assert_eq!(RegistrationRequest::deserialize(suite, &identity).err(), e);

    let mut bytes = f.registration_response.serialize();
    bytes[..32].copy_from_slice(&identity);
    assert_eq!(RegistrationResponse::deserialize(suite, &bytes).err(), e);
    // The identity is told apart even in front of a public key that is none.
    let len = bytes.len();
    bytes[32..len].copy_from_slice(&[0xffu8; 32]);
    assert_eq!(RegistrationResponse::deserialize(suite, &bytes).err(), e);

    let mut bytes = f.credential_request.serialize();
    bytes[..32].copy_from_slice(&identity);
    assert_eq!(CredentialRequest::deserialize(suite, &bytes).err(), e);

    let mut bytes = f.credential_response.serialize();
    bytes[..32].copy_from_slice(&identity);
    assert_eq!(CredentialResponse::deserialize(suite, &bytes).err(), e);
}

#[test]
fn identity_in_a_flow_is_refused() {
    let suite = ristretto();
    let mut rng = StdRng::seed_from_u64(25);
    let setup = ServerSetup::new(suite, &mut rng).unwrap();
    let identity = [0u8; 32];

    let request = RegistrationRequest { blinded_element: identity.to_vec() };
    assert_eq!(
        ServerRegistration::start(suite, &setup, &request, b"user").err(),
        Some(ProtocolError::IdentityGroupElement)
    );

    let (client, request) = ClientRegistration::start(suite, &mut rng, PASSWORD).unwrap();
    let response = ServerRegistration::start(suite, &setup, &request, b"user").unwrap();
    let reflected = response.set_evaluation_element_for_testing(&identity);
    assert_eq!(reflected.server_s_pk, response.server_s_pk);
    assert_eq!(
        client.finish(suite, &mut rng, PASSWORD, &reflected, &None).err(),
        Some(ProtocolError::IdentityGroupElement)
    );

    let f = flights(suite, 26);
    let (client, _) = ClientLogin::start(suite, &mut rng, PASSWORD).unwrap();
    let reflected = f.credential_response.set_evaluation_element_for_testing(&identity);
    assert_eq!(reflected.masked_response, f.credential_response.masked_response);
    assert_eq!(
        client.finish(suite, PASSWORD, &reflected, &None, CONTEXT).err(),
        Some(ProtocolError::InvalidLogin)
    );
}

#[test]
fn p256_has_no_identity_of_the_length_of_an_element() {
    let suite = p256();
    assert!(!is_identity_element(suite.oprf, &[0u8; 33]));
    assert!(!is_element(suite.oprf, &[0u8; 33]));
    assert_eq!(check_element(suite.oprf, &[0u8; 33]).err(), Some(ProtocolError::SerializationError));
    assert!(!is_identity_element(suite.oprf, &[0u8; 1]));
}

#[test]
fn invalid_encodings_are_refused() {
    let e = Some(ProtocolError::SerializationError);
    // 32 bytes of 0xff are neither a ristretto255 element nor a scalar.
    let suite = ristretto();
    let f = flights(suite, 27);
    assert!(!is_element(suite.oprf, &[0xffu8; 32]));
    assert!(!is_identity_element(suite.oprf, &[0xffu8; 32]));
    assert!(!is_public_key(suite.ke_group, &[0xffu8; 32]));
    assert!(!is_public_key(suite.ke_group, &[0u8; 32]));
    assert!(is_public_key(suite.ke_group, &f.registration_response.server_s_pk));
    assert!(is_element(suite.oprf, &f.registration_request.blinded_element));
    assert_eq!(RegistrationRequest::deserialize(suite, &[0xffu8; 32]).err(), e);

    let mut bytes = f.registration_response.serialize();
    bytes[32..].copy_from_slice(&[0xffu8; 32]);
    assert_eq!(RegistrationResponse::deserialize(suite, &bytes).err(), e);

    let mut bytes = f.registration_upload.serialize();
    bytes[..32].copy_from_slice(&[0xffu8; 32]);
    assert_eq!(RegistrationUpload::deserialize(suite, &bytes).err(), e);

    let mut bytes = f.credential_request.serialize();
    bytes[64..].copy_from_slice(&[0xffu8; 32]);
    assert_eq!(CredentialRequest::deserialize(suite, &bytes).err(), e);

    let mut bytes = f.credential_response.serialize();
    let start = 32 + 32 + 128 + 32;
    bytes[start..start + 32].copy_from_slice(&[0xffu8; 32]);
    assert_eq!(CredentialResponse::deserialize(suite, &bytes).err(), e);

    // A P-256 point must start with 0x02 or 0x03 and lie on the curve.
    let suite = p256();
    let f = flights(suite, 28);
    let mut bytes = f.registration_request.serialize();
    bytes[0] = 0x04;
    assert_eq!(RegistrationRequest::deserialize(suite, &bytes).err(), e);
    assert!(!is_public_key(suite.ke_group, &[0x02u8; 32]));

    // On curve25519 a public key is the coordinate of a point of prime
    // order: not a point of small order, and not a point of the twist.
    let suite = curve25519();
    let mut u = [0u8; 32];
    assert!(!is_public_key(suite.ke_group, &u));
    u[0] = 1;
    assert!(!is_public_key(suite.ke_group, &u));
    u[0] = 9;
    assert!(is_public_key(suite.ke_group, &u));
    assert!(!is_public_key(suite.ke_group, &u[..31]));
    let mut on_curve = 0;
    for first in 0..=255u8 {
        u[0] = first;
        let expected = curve25519_dalek::montgomery::MontgomeryPoint(u)
            .to_edwards(0)
            .map_or(false, |p| p.is_torsion_free());
        assert_eq!(is_public_key(suite.ke_group, &u), expected);
        if curve25519_dalek::montgomery::MontgomeryPoint(u).to_edwards(0).is_some() {
            on_curve += 1;
        }
        if expected {
            assert!(diffie_hellman(suite.ke_group, &[3u8; 32], &u).is_some());
        } else {
            assert_eq!(diffie_hellman(suite.ke_group, &[3u8; 32], &u), None);
        }
    }
    assert!(on_curve > 64 && on_curve < 192);
}

#[test]
fn private_keys_are_checked() {
    let e = Some(ProtocolError::SerializationError);
    for group in [KeGroup::Ristretto255, KeGroup::Curve25519, KeGroup::P256] {
        assert_eq!(KeyPair::from_private_key_slice(group, &[0u8; 32]).err(), e);
        assert_eq!(KeyPair::from_private_key_slice(group, &[1u8; 31]).err(), e);
        assert_eq!(KeyPair::from_private_key_slice(group, &[1u8; 33]).err(), e);
        assert_eq!(public_key(group, &[0u8; 32]), None);
        let mut one = [0u8; 32];
        match group {
            KeGroup::P256 => one[31] = 1,
            _ => one[0] = 1,
        }
        let kp = KeyPair::from_private_key_slice(group, &one).unwrap();
        assert_eq!(kp.private(), &one.to_vec());
        assert!(is_public_key(group, kp.public()));
        assert_eq!(kp.public().len(), group.pk_size());
        assert_ne!(kp.public()[..], one[..kp.public().len().min(32)]);
        assert_eq!(diffie_hellman(group, &one, kp.public()).unwrap(), *kp.public());
        assert_eq!(diffie_hellman(group, &[0u8; 32], kp.public()), None);
        assert_eq!(diffie_hellman(group, &one, &vec![0u8; group.pk_size()]), None);
    }
    // The order of the ristretto255 group is no scalar of it; the same
    // bytes are zero on curve25519.
    let order = [
        0xed, 0xd3, 0xf5, 0x5c, 0x1a, 0x63, 0x12, 0x58, 0xd6, 0x9c, 0xf7, 0xa2, 0xde, 0xf9, 0xde,
        0x14, 0, 0, 0, 0, 0, 0, 0, 0, 0, 0, 0, 0, 0, 0, 0, 0x10,
    ];
    assert_eq!(public_key(KeGroup::Ristretto255, &order), None);
    assert_eq!(public_key(KeGroup::Curve25519, &order), None);
    assert_eq!(public_key(KeGroup::P256, &[0xffu8; 32]), None);
    // The base point of ristretto255 and the generator of P-256.
    let mut one = [0u8; 32];
    one[0] = 1;
    assert_eq!(
        public_key(KeGroup::Ristretto255, &one).unwrap(),
        vec![
            0xe2, 0xf2, 0xae, 0x0a, 0x6a, 0xbc, 0x4e, 0x71, 0xa8, 0x84, 0xa9, 0x61, 0xc5, 0x00,
            0x51, 0x5f, 0x58, 0xe3, 0x0b, 0x6a, 0xa5, 0x82, 0xdd, 0x8d, 0xb6, 0xa6, 0x59, 0x45,
            0xe0, 0x8d, 0x2d, 0x76
        ]
    );
    let mut nine = [0u8; 32];
    nine[0] = 9;
    assert_eq!(public_key(KeGroup::Curve25519, &one).unwrap(), nine.to_vec());
}

#[test]
fn random_keys_are_keys_and_differ() {
    let mut rng = StdRng::seed_from_u64(29);
    for group in [KeGroup::Ristretto255, KeGroup::Curve25519, KeGroup::P256] {
        let a = random_scalar(group, &mut rng);
        let b = random_scalar(group, &mut rng);
        assert_eq!(a.len(), 32);
        assert_ne!(a, b);
        assert!(public_key(group, &a).is_some());
        let kp = KeyPair::generate_random(group, &mut rng).unwrap();
        assert_eq!(public_key(group, kp.private()).unwrap(), *kp.public());
        let mut kp = kp;
        kp.zeroize();
        assert!(kp.private().is_empty());
    }
}

#[test]
fn dummy_envelope_is_zeros_and_never_opens() {
    for suite in suites() {
        let dummy = Envelope::dummy(suite);
        assert_eq!(dummy.mode, InnerEnvelopeMode::Zero);
        assert_eq!(dummy.serialize(), vec![0u8; Envelope::len(suite)]);
        let rp = vec![1u8; suite.hash_size()];
        let pk = KeyPair::from_private_key_slice(suite.ke_group, &[3u8; 32]).unwrap();
        assert_eq!(
            dummy.open(suite, &rp, pk.public(), &None).err(),
            Some(ProtocolError::IncompatibleEnvelopeMode)
        );
        // Read back from the wire it is an envelope like any other, whose
        // tag does not verify.
        let read = Envelope::deserialize(suite, &dummy.serialize()).unwrap();
        assert_eq!(read.mode, InnerEnvelopeMode::Internal);
        assert_eq!(
            read.open(suite, &rp, pk.public(), &None).err(),
            Some(ProtocolError::InvalidLogin)
        );
        let record = RegistrationUpload::dummy(suite, &rp, pk.public());
        assert_eq!(record.envelope.serialize(), vec![0u8; Envelope::len(suite)]);
        assert_eq!(record.masking_key, rp);
        assert_eq!(&record.client_s_pk, pk.public());
    }
}

#[test]
fn envelope_mode_of_a_byte() {
    assert_eq!(InnerEnvelopeMode::try_from(1), Ok(InnerEnvelopeMode::Internal));
    assert_eq!(InnerEnvelopeMode::try_from(0), Err(ProtocolError::SerializationError));
    assert_eq!(InnerEnvelopeMode::try_from(2), Err(ProtocolError::SerializationError));
    assert_eq!(InnerEnvelopeMode::try_from(255), Err(ProtocolError::SerializationError));
}

#[test]
fn short_randomized_password_is_an_hkdf_error() {
    for suite in suites() {
        let short = vec![1u8; suite.hash_size() - 1];
        let long = vec![1u8; suite.hash_size() + 5];
        let nonce = [0u8; 32];
        let e = Some(ProtocolError::HkdfError);
        assert_eq!(
            Envelope::seal_raw(suite, &short, &nonce, b"aad", InnerEnvelopeMode::Internal).err(),
            e
        );
        assert!(Envelope::seal_raw(suite, &long, &nonce, b"aad", InnerEnvelopeMode::Internal)
            .is_ok());
        let pk = KeyPair::from_private_key_slice(suite.ke_group, &[3u8; 32]).unwrap();
        assert_eq!(Envelope::seal_with_nonce(suite, &nonce, &short, pk.public(), &None).err(), e);
        let (envelope, _) =
            Envelope::seal_raw(suite, &long, &nonce, b"aad", InnerEnvelopeMode::Internal).unwrap();
        assert_eq!(envelope.open_raw(suite, &short, b"aad").err(), e);
        assert_eq!(envelope.open(suite, &short, pk.public(), &None).err(), e);
        assert_eq!(
            envelope.open_raw(suite, &long, b"aae").err(),
            Some(ProtocolError::InvalidLogin)
        );
        assert_eq!(oprf_key(suite, &short, b"user").err(), e);
        assert_eq!(opaque_ke::opaque::masking_key(suite, &short).err(), e);
        assert_eq!(
            opaque_ke::opaque::credential_response_pad(suite, &short, &nonce).err(),
            e
        );
    }
}

#[test]
fn a_blind_that_is_no_scalar_is_an_internal_error() {
    for suite in suites() {
        let e = Some(ProtocolError::InternalError);
        assert_eq!(ClientRegistration::start_with_blind(suite, &[0u8; 32], PASSWORD).err(), e);
        assert_eq!(ClientRegistration::start_with_blind(suite, &[1u8; 31], PASSWORD).err(), e);
        let kp = KeyPair::from_private_key_slice(suite.ke_group, &[3u8; 32]).unwrap();
        assert_eq!(
            ClientLogin::start_with(suite, &[0u8; 32], kp.private(), &[0u8; 32], PASSWORD).err(),
            e
        );
        assert_eq!(blind(suite.oprf, PASSWORD, &[0u8; 32]), None);
    }
}

#[test]
fn server_setup_round_trip() {
    for suite in suites() {
        let mut rng = StdRng::seed_from_u64(30);
        let setup = ServerSetup::new(suite, &mut rng).unwrap();
        let bytes = setup.serialize();
        assert_eq!(bytes.len(), suite.hash_size() + 64);
        let back = ServerSetup::deserialize(suite, &bytes).unwrap();
        assert_eq!(back.oprf_seed, setup.oprf_seed);
        assert_eq!(back.keypair.private(), setup.keypair.private());
        assert_eq!(back.keypair.public(), setup.keypair.public());
        assert_eq!(back.fake_keypair.public(), setup.fake_keypair.public());
        assert_eq!(back.serialize(), bytes);
        let e = Some(ProtocolError::SerializationError);
        assert_eq!(ServerSetup::deserialize(suite, &bytes[1..]).err(), e);
        let mut zero_key = bytes.clone();
        let n = suite.hash_size();
        zero_key[n..n + 32].copy_from_slice(&[0u8; 32]);
        assert_eq!(ServerSetup::deserialize(suite, &zero_key).err(), e);
        assert_eq!(
            ServerSetup::from_parts(suite, &bytes[..n - 1], &bytes[n..n + 32], &bytes[n + 32..])
                .err(),
            e
        );
    }
}

#[test]
fn key_exchange_states_and_messages_round_trip() {
    for suite in suites() {
        let mut rng = StdRng::seed_from_u64(31);
        let (state, message) = TripleDh::generate_ke1(suite, &mut rng).unwrap();
        let bytes = state.to_bytes();
        let back = Ke1State::from_bytes(suite, &bytes).unwrap();
        assert_eq!(back.client_e_sk, state.client_e_sk);
        assert_eq!(back.client_nonce, state.client_nonce);
        assert_eq!(back.to_bytes(), bytes);
        let bytes = message.to_bytes();
        let back = Ke1Message::from_bytes(suite, &bytes).unwrap();
        assert_eq!(back.to_bytes(), bytes);
        assert_eq!(&bytes[..32], &state.client_nonce[..]);

        let server = KeyPair::generate_random(suite.ke_group, &mut rng).unwrap();
        let client = KeyPair::generate_random(suite.ke_group, &mut rng).unwrap();
        let (state2, message2) = TripleDh::generate_ke2(
            suite, &mut rng, b"l1", b"l2", &message, client.public(), server.private(), b"u", b"s",
            CONTEXT,
        )
        .unwrap();
        let bytes = state2.to_bytes();
        assert_eq!(bytes.len(), 3 * suite.hash_size());
        let back = Ke2State::from_bytes(suite, &bytes).unwrap();
        assert_eq!(back.session_key, state2.session_key);
        assert_eq!(back.expected_client_mac, state2.expected_client_mac);
        assert_eq!(back.handshake_secret, state2.handshake_secret);
        let bytes = message2.to_bytes();
        assert_eq!(bytes.len(), TripleDh::ke2_message_size(suite));
        let back = Ke2Message::from_bytes(suite, &bytes).unwrap();
        assert_eq!(back.to_bytes(), bytes);

        let (session_key, message3) = TripleDh::generate_ke3(
            suite, b"l2", &message2, &state, b"l1", server.public(), client.private(), b"u", b"s",
            CONTEXT,
        )
        .unwrap();
        assert_eq!(session_key, state2.session_key);
        let back = Ke3Message::from_bytes(suite, &message3.to_bytes()).unwrap();
        assert_eq!(TripleDh::finish_ke(suite, &back, &state2).unwrap(), session_key);

        // Another transcript, another MAC.
        let r = TripleDh::generate_ke3(
            suite, b"l2", &message2, &state, b"l1", server.public(), client.private(), b"u", b"t",
            CONTEXT,
        );
        assert_eq!(r.err(), Some(ProtocolError::InvalidLogin));
        let r = TripleDh::generate_ke3(
            suite, b"l3", &message2, &state, b"l1", server.public(), client.private(), b"u", b"s",
            CONTEXT,
        );
        assert_eq!(r.err(), Some(ProtocolError::InvalidLogin));

        let e = Some(ProtocolError::SerializationError);
        assert_eq!(Ke1State::from_bytes(suite, &[0u8; 64]).err(), e);
        assert_eq!(Ke1State::from_bytes(suite, &[1u8; 63]).err(), e);
        assert_eq!(Ke2State::from_bytes(suite, &[1u8; 7]).err(), e);
        assert_eq!(Ke3Message::from_bytes(suite, &[1u8; 7]).err(), e);
        assert_eq!(Ke1Message::from_bytes(suite, &vec![0u8; suite.ke1_message_size()]).err(), e);
        assert_eq!(Ke2Message::from_bytes(suite, &vec![0u8; suite.ke2_message_size()]).err(), e);
        let mut state = state;
        state.zeroize();
        assert!(state.client_e_sk.is_empty() && state.client_nonce.is_empty());
        let mut state2 = state2;
        state2.zeroize();
        assert!(state2.session_key.is_empty());
    }
}

#[test]
fn key_exchange_refuses_keys_and_lengths_that_do_not_fit() {
    let suite = ristretto();
    let mut rng = StdRng::seed_from_u64(32);
    let (state, message) = TripleDh::generate_ke1(suite, &mut rng).unwrap();
    let server = KeyPair::generate_random(suite.ke_group, &mut rng).unwrap();
    let client = KeyPair::generate_random(suite.ke_group, &mut rng).unwrap();
    let e = Some(ProtocolError::SerializationError);
    let long = vec![0u8; 0x1_0000];
    let fits = vec![0u8; 0xffff];
    let ke2 = |client_s_pk: &[u8], server_s_sk: &[u8], id_u: &[u8], id_s: &[u8], ctx: &[u8]| {
        TripleDh::generate_ke2_with(
            suite, server.private(), &[4u8; 32], b"l1", b"l2", &message, client_s_pk, server_s_sk,
            id_u, id_s, ctx,
        )
    };
    assert!(ke2(client.public(), server.private(), b"u", b"s", CONTEXT).is_ok());
    assert!(ke2(client.public(), server.private(), &fits, &fits, &fits).is_ok());
    assert!(ke2(client.public(), server.private(), &[], &[], &[]).is_ok());
    assert_eq!(ke2(&[0u8; 32], server.private(), b"u", b"s", CONTEXT).err(), e);
    assert_eq!(ke2(client.public(), &[0u8; 32], b"u", b"s", CONTEXT).err(), e);
    assert_eq!(ke2(client.public(), server.private(), &long, b"s", CONTEXT).err(), e);
    assert_eq!(ke2(client.public(), server.private(), b"u", &long, CONTEXT).err(), e);
    assert_eq!(ke2(client.public(), server.private(), b"u", b"s", &long).err(), e);
    assert_eq!(
        TripleDh::generate_ke1_with(suite, &[0u8; 32], &[0u8; 32]).err(),
        e
    );
    let (_, message2) = ke2(client.public(), server.private(), b"u", b"s", CONTEXT).unwrap();
    let ke3 = |server_s_pk: &[u8], client_s_sk: &[u8], ctx: &[u8]| {
        TripleDh::generate_ke3(
            suite, b"l2", &message2, &state, b"l1", server_s_pk, client_s_sk, b"u", b"s", ctx,
        )
    };
    assert!(ke3(server.public(), client.private(), CONTEXT).is_ok());
    assert_eq!(ke3(&[0xffu8; 32], client.private(), CONTEXT).err(), e);
    assert_eq!(ke3(server.public(), &[0u8; 32], CONTEXT).err(), e);
    assert_eq!(ke3(server.public(), client.private(), &long).err(), e);
    assert_eq!(
        ke3(client.public(), client.private(), CONTEXT).err(),
        Some(ProtocolError::InvalidLogin)
    );
}

#[test]
fn login_refuses_a_response_that_does_not_fit() {
    let suite = ristretto();
    let f = flights(suite, 33);
    let mut rng = StdRng::seed_from_u64(34);
    let e = Some(ProtocolError::SerializationError);
    let client = || ClientLogin::start(suite, &mut StdRng::seed_from_u64(35), PASSWORD).unwrap().0;
    let mut short_nonce = f.credential_response.clone();
    short_nonce.masking_nonce.pop();
    assert_eq!(client().finish(suite, PASSWORD, &short_nonce, &None, CONTEXT).err(), e);
    let mut long_mask = f.credential_response.clone();
    long_mask.masked_response.push(0);
    assert_eq!(client().finish(suite, PASSWORD, &long_mask, &None, CONTEXT).err(), e);
    let long = vec![0u8; 0x1_0000];
    assert_eq!(client().finish(suite, PASSWORD, &f.credential_response, &None, &long).err(), e);
    let ids = Some(Identifiers { client: Some(long.clone()), server: None });
    assert_eq!(client().finish(suite, PASSWORD, &f.credential_response, &ids, CONTEXT).err(), e);
    let ids = Some(Identifiers { client: None, server: Some(long.clone()) });
    assert_eq!(client().finish(suite, PASSWORD, &f.credential_response, &ids, CONTEXT).err(), e);
    let mut bad_element = f.credential_response.clone();
    bad_element.evaluation_element = vec![0xffu8; 32];
    assert_eq!(client().finish(suite, PASSWORD, &bad_element, &None, CONTEXT).err(), e);
    // The server refuses identities that do not fit, and a record whose
    // envelope has not its length.
    let setup = ServerSetup::new(suite, &mut rng).unwrap();
    let record = ServerRegistration::finish(f.registration_upload);
    let r = ServerLogin::start(
        suite, &mut rng, &setup, Some(&record), &f.credential_request, b"user", &ids, CONTEXT,
    );
    assert_eq!(r.err(), e);
    let mut record = record;
    record.record.envelope.hmac.pop();
    let r = ServerLogin::start(
        suite, &mut rng, &setup, Some(&record), &f.credential_request, b"user", &None, CONTEXT,
    );
    assert_eq!(r.err(), e);
    record.record.envelope.hmac.push(0);
    record.record.masking_key.truncate(10);
    let r = ServerLogin::start(
        suite, &mut rng, &setup, Some(&record), &f.credential_request, b"user", &None, CONTEXT,
    );
    assert_eq!(r.err(), Some(ProtocolError::HkdfError));
}

#[test]
fn identities_default_to_the_public_keys() {
    let client_pk = b"client public key".to_vec();
    let server_pk = b"server public key".to_vec();
    let r = bytestrings_from_identifiers(&None, &client_pk, &server_pk).unwrap();
    assert_eq!(r, (client_pk.clone(), server_pk.clone()));
    let ids = Some(Identifiers { client: None, server: None });
    let r = bytestrings_from_identifiers(&ids, &client_pk, &server_pk).unwrap();
    assert_eq!(r, (client_pk.clone(), server_pk.clone()));
    let ids = Some(Identifiers { client: Some(b"alice".to_vec()), server: None });
    let r = bytestrings_from_identifiers(&ids, &client_pk, &server_pk).unwrap();
    assert_eq!(r, (b"alice".to_vec(), server_pk.clone()));
    let ids = Some(Identifiers { client: None, server: Some(b"bob".to_vec()) });
    let r = bytestrings_from_identifiers(&ids, &client_pk, &server_pk).unwrap();
    assert_eq!(r, (client_pk.clone(), b"bob".to_vec()));
    let ids = Some(Identifiers { client: Some(Vec::new()), server: Some(vec![7u8; 0xffff]) });
    let r = bytestrings_from_identifiers(&ids, &client_pk, &server_pk).unwrap();
    assert_eq!(r, (Vec::new(), vec![7u8; 0xffff]));
    let ids = Some(Identifiers { client: Some(vec![7u8; 0x1_0000]), server: None });
    assert_eq!(
        bytestrings_from_identifiers(&ids, &client_pk, &server_pk).err(),
        Some(ProtocolError::SerializationError)
    );
    assert_eq!(
        bytestrings_from_identifiers(&None, &client_pk, &vec![0u8; 0x1_0000]).err(),
        Some(ProtocolError::SerializationError)
    );
}

#[test]
fn authenticated_data_is_the_server_key_then_the_identities() {
    assert_eq!(construct_aad(b"alice", b"bob", b"KEY"), b"KEYbobalice".to_vec());
    assert_eq!(construct_aad(b"", b"", b""), Vec::<u8>::new());
    assert_eq!(construct_aad(b"u", b"", b"k"), b"ku".to_vec());
}

#[test]
fn transcript_layout() {
    let preamble =
        build_preamble(b"ctx", b"alice", b"<l1>", b"<l2>", b"bob", b"<nonce>", b"<key>");
    let mut expected = b"OPAQUE-".to_vec();
    expected.extend_from_slice(&[0, 3]);
    expected.extend_from_slice(b"ctx");
    expected.extend_from_slice(&[0, 5]);
    expected.extend_from_slice(b"alice");
    expected.extend_from_slice(b"<l1><l2>");
    expected.extend_from_slice(&[0, 3]);
    expected.extend_from_slice(b"bob");
    expected.extend_from_slice(b"<nonce><key>");
    assert_eq!(preamble, expected);
    let long = vec![1u8; 0x0102];
    let preamble = build_preamble(&long, b"", b"", b"", b"", b"", b"");
    assert_eq!(&preamble[7..9], &[1, 2]);
    assert_eq!(preamble.len(), 7 + 2 + 0x0102 + 2 + 2);
}

#[test]
fn byte_string_helpers() {
    assert_eq!(concat2(b"ab", b"c"), b"abc".to_vec());
    assert_eq!(concat3(b"", b"ab", b"c"), b"abc".to_vec());
    assert_eq!(copy_range(b"abcdef", 2, 4), b"cd".to_vec());
    assert_eq!(copy_range(b"abcdef", 6, 6), Vec::<u8>::new());
    assert_eq!(encode_len_2(0), vec![0, 0]);
    assert_eq!(encode_len_2(258), vec![1, 2]);
    assert_eq!(encode_len_2(0xffff), vec![255, 255]);
    assert_eq!(xor_bytes(&[0xf0, 0x0f, 0xaa], &[0xff, 0xff, 0xaa]), vec![0x0f, 0xf0, 0]);
    assert_eq!(zero_bytes(3), vec![0, 0, 0]);
    assert_eq!(zero_bytes(0), Vec::<u8>::new());
}

#[test]
fn randomized_password_is_the_extraction_of_the_output_twice() {
    // The key-stretching function is the identity: the input keying
    // material is the OPRF output followed by itself.
    let suite = p256();
    let output = [5u8; 32];
    assert_eq!(ksf(&output), output.to_vec());
    let twice = [output, output].concat();
    assert_eq!(randomized_password(suite, &output), hkdf_extract(HashAlg::Sha256, &twice));
}

#[test]
fn oprf_is_oblivious_to_the_blind() {
    for oprf in [OprfSuite::Ristretto255Sha512, OprfSuite::P256Sha256] {
        let mut key = [0u8; 32];
        key[5] = 7;
        let mut blind_a = [0u8; 32];
        blind_a[3] = 1;
        let mut blind_b = [0u8; 32];
        blind_b[9] = 2;
        let element_a = blind(oprf, PASSWORD, &blind_a).unwrap();
        let element_b = blind(oprf, PASSWORD, &blind_b).unwrap();
        assert_ne!(element_a, element_b);
        assert_eq!(element_a.len(), oprf.element_size());
        assert!(is_element(oprf, &element_a));
        let evaluated_a = blind_evaluate(oprf, &key, &element_a).unwrap();
        let evaluated_b = blind_evaluate(oprf, &key, &element_b).unwrap();
        assert_ne!(evaluated_a, element_a);
        let output_a = finalize(oprf, PASSWORD, &blind_a, &evaluated_a).unwrap();
        let output_b = finalize(oprf, PASSWORD, &blind_b, &evaluated_b).unwrap();
        assert_eq!(output_a, output_b);
        assert_eq!(output_a.len(), oprf.hash().output_size());
        let other = finalize(oprf, b"hunter3", &blind_a, &evaluated_a).unwrap();
        assert_ne!(output_a, other);
        assert_eq!(blind_evaluate(oprf, &[0u8; 32], &element_a), None);
        assert_eq!(blind_evaluate(oprf, &key, &vec![0xffu8; oprf.element_size()]), None);
        assert_eq!(finalize(oprf, PASSWORD, &[0u8; 32], &evaluated_a), None);
        assert_eq!(finalize(oprf, &vec![0u8; 0x1_0000], &blind_a, &evaluated_a), None);

        let k1 = derive_key(oprf, b"seed one", b"").unwrap();
        let k2 = derive_key(oprf, b"seed two", b"").unwrap();
        let k3 = derive_key(oprf, b"seed one", b"info").unwrap();
        assert_eq!(k1.len(), 32);
        assert_ne!(k1, k2);
        assert_ne!(k1, k3);
        assert_eq!(derive_key(oprf, b"seed one", b"").unwrap(), k1);
        let s1 = hash_to_scalar(oprf, b"input", b"tag one").unwrap();
        let s2 = hash_to_scalar(oprf, b"input", b"tag two").unwrap();
        assert_eq!(s1.len(), 32);
        assert_ne!(s1, s2);
        assert_eq!(hash_to_scalar(oprf, b"input", b"tag one").unwrap(), s1);
    }
}

#[test]
fn oprf_key_depends_on_the_seed_and_on_the_identifier() {
    for suite in suites() {
        let seed = vec![1u8; suite.hash_size()];
        let other = vec![2u8; suite.hash_size()];
        let k = oprf_key(suite, &seed, b"alice").unwrap();
        assert_eq!(k.len(), 32);
        assert_eq!(oprf_key(suite, &seed, b"alice").unwrap(), k);
        assert_ne!(oprf_key(suite, &seed, b"bob").unwrap(), k);
        assert_ne!(oprf_key(suite, &other, b"alice").unwrap(), k);
    }
}

#[test]
fn failures_describe_themselves() {
    let all = [
        ProtocolError::InvalidLogin,
        ProtocolError::InvalidMessage,
        ProtocolError::IdentityGroupElement,
        ProtocolError::SerializationError,
        ProtocolError::IncompatibleEnvelopeMode,
        ProtocolError::HkdfError,
        ProtocolError::HmacError,
        ProtocolError::InternalError,
    ];
    for (i, a) in all.iter().enumerate() {
        assert!(!a.description().is_empty());
        for b in all.iter().skip(i + 1) {
            assert_ne!(a, b);
            assert_ne!(a.description(), b.description());
        }
    }
    assert_eq!(ProtocolError::InvalidLogin.description(), "invalid login");
}

#[test]
fn a_secret_gives_out_the_bytes_it_keeps() {
    let secret = opaque_ke::secret::Secret::new(vec![1, 2, 3]);
    assert_eq!(secret.as_slice(), &[1, 2, 3]);
}

#[test]
fn client_key_pair_is_the_seed_hashed_to_a_scalar() {
    let rp = [0x11u8; 64];
    let nonce = [0x22u8; 32];
    // The seed is expanded from the randomized password under the nonce
    // and the label, and hashed to a scalar under the tag.
    let mut seed = [0u8; 32];
    hkdf::Hkdf::<sha2::Sha512>::from_prk(&rp)
        .unwrap()
        .expand(&[&nonce[..], b"PrivateKey"].concat(), &mut seed)
        .unwrap();
    let scalar = voprf::Ristretto255::hash_to_scalar::<sha2::Sha512>(
        &[&seed],
        &[b"OPAQUE-DeriveAuthKeyPair"],
    )
    .unwrap();
    let private = voprf::Ristretto255::serialize_scalar(scalar).to_vec();
    let public =
        voprf::Ristretto255::serialize_elem(voprf::Ristretto255::base_elem() * &scalar).to_vec();
    for suite in [ristretto(), curve25519()] {
        let kp = opaque_ke::envelope::recover_keys_internal(suite, &rp, &nonce).unwrap();
        assert_eq!(kp.private(), &private);
        assert_eq!(
            opaque_ke::envelope::build_inner_envelope_internal(suite, &rp, &nonce).unwrap(),
            *kp.public()
        );
        assert_eq!(public_key(suite.ke_group, &private).unwrap(), *kp.public());
    }
    let kp = opaque_ke::envelope::recover_keys_internal(ristretto(), &rp, &nonce).unwrap();
    assert_eq!(kp.public(), &public);

    let rp = [0x11u8; 32];
    let mut seed = [0u8; 32];
    hkdf::Hkdf::<sha2::Sha256>::from_prk(&rp)
        .unwrap()
        .expand(&[&nonce[..], b"PrivateKey"].concat(), &mut seed)
        .unwrap();
    let scalar = <p256::NistP256 as Group>::hash_to_scalar::<sha2::Sha256>(
        &[&seed],
        &[b"OPAQUE-DeriveAuthKeyPair"],
    )
    .unwrap();
    let kp = opaque_ke::envelope::recover_keys_internal(p256(), &rp, &nonce).unwrap();
    assert_eq!(kp.private(), &<p256::NistP256 as Group>::serialize_scalar(scalar).to_vec());
}

#[test]
fn oprf_key_is_derived_from_the_expanded_seed() {
    let oprf_seed = [0x33u8; 64];
    let mut seed = [0u8; 32];
    hkdf::Hkdf::<sha2::Sha512>::from_prk(&oprf_seed)
        .unwrap()
        .expand(b"aliceOprfKey", &mut seed)
        .unwrap();
    let key = voprf::derive_key::<voprf::Ristretto255>(&seed, b"", voprf::Mode::Oprf).unwrap();
    assert_eq!(
        oprf_key(ristretto(), &oprf_seed, b"alice").unwrap(),
        voprf::Ristretto255::serialize_scalar(key).to_vec()
    );
}

#[test]
fn pad_of_a_credential_response_is_expanded_from_the_masking_key() {
    let masking_key = [0x44u8; 32];
    let masking_nonce = [0x55u8; 32];
    let suite = p256();
    let mut pad = vec![0u8; 33 + 32 + 32];
    hkdf::Hkdf::<sha2::Sha256>::from_prk(&masking_key)
        .unwrap()
        .expand(&[&masking_nonce[..], b"CredentialResponsePad"].concat(), &mut pad)
        .unwrap();
    assert_eq!(
        opaque_ke::opaque::credential_response_pad(suite, &masking_key, &masking_nonce).unwrap(),
        pad
    );
    let mut key = vec![0u8; 32];
    hkdf::Hkdf::<sha2::Sha256>::from_prk(&masking_key)
        .unwrap()
        .expand(b"MaskingKey", &mut key)
        .unwrap();
    assert_eq!(opaque_ke::opaque::masking_key(suite, &masking_key).unwrap(), key);
}

#[test]
fn p256_points_are_taken_in_compressed_form_only() {
    let suite = p256();
    let f = flights(suite, 36);
    let compressed = f.registration_response.server_s_pk.clone();
    assert!(compressed[0] == 2 || compressed[0] == 3);
    assert!(is_public_key(suite.ke_group, &compressed));
    assert!(is_element(suite.oprf, &compressed));
    // The same coordinate behind the tag of the compact form is a point to
    // the curve's own parser, and none to this library.
    let mut compact = compressed.clone();
    compact[0] = 5;
    assert!(<p256::NistP256 as Group>::deserialize_elem(&compact).is_ok());
    assert!(!is_public_key(suite.ke_group, &compact));
    assert!(!is_element(suite.oprf, &compact));
    assert_eq!(diffie_hellman(suite.ke_group, &[7u8; 32], &compact), None);
    assert!(diffie_hellman(suite.ke_group, &[7u8; 32], &compressed).is_some());
    let e = Some(ProtocolError::SerializationError);
    assert_eq!(RegistrationRequest::deserialize(suite, &compact).err(), e);
    let mut bytes = f.registration_response.serialize();
    bytes[33] = 5;
    assert_eq!(RegistrationResponse::deserialize(suite, &bytes).err(), e);
    let mut bytes = f.credential_request.serialize();
    bytes[0] = 5;
    assert_eq!(CredentialRequest::deserialize(suite, &bytes).err(), e);
}
