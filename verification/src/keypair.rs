//! Key pairs of the key-exchange group, in serialized form.

use rand::rngs::StdRng;
use vstd::prelude::*;

use crate::bytes::copy_of;
use crate::ciphersuite::KeGroup;
use crate::errors::ProtocolError;
use crate::primitives::group::{pk_valid, public_key, random_scalar, sk_valid, spec_public_key};
use crate::primitives::rng::erase;

verus! {

/// A private key and the public key that belongs to it. The private key
/// is overwritten with zeros when the pair is dropped.
#[derive(Debug)]
pub struct KeyPair {
    pub public: Vec<u8>,
    pub private: Vec<u8>,
}

/// What a key pair holds.
pub struct KeyPairView {
    pub public: Seq<u8>,
    pub private: Seq<u8>,
}

impl View for KeyPair {
    type V = KeyPairView;

    open spec fn view(&self) -> KeyPairView {
        KeyPairView { public: self.public@, private: self.private@ }
    }
}

impl KeyPairView {
    /// The private key is one of `group` and the public key is the
    /// generator times it.
    pub open spec fn wf(self, group: KeGroup) -> bool {
        &&& sk_valid(group, self.private)
        &&& self.public == spec_public_key(group, self.private)
        &&& pk_valid(group, self.public)
    }
}

/// The key pair of the private key `sk`, or the refusal of `sk`.
pub open spec fn spec_keypair(group: KeGroup, sk: Seq<u8>) -> Result<KeyPairView, ProtocolError> {
    if sk_valid(group, sk) {
        Ok(KeyPairView { public: spec_public_key(group, sk), private: sk })
    } else {
        Err(ProtocolError::SerializationError)
    }
}

impl KeyPair {
    /// The key pair of the private key `sk`. Fails with
    /// `SerializationError` exactly where `sk` is no private key of
    /// `group`.
    pub fn from_private_key_slice(group: KeGroup, sk: &[u8]) -> (r: Result<KeyPair, ProtocolError>)
        ensures
            r is Ok <==> sk_valid(group, sk@),
            r matches Ok(kp) ==> Ok::<KeyPairView, ProtocolError>(kp@) == spec_keypair(group, sk@)
                && kp@.wf(group),
            r matches Err(e) ==> e == ProtocolError::SerializationError,
    {
        match public_key(group, sk) {
            Some(public) => Ok(KeyPair { public, private: copy_of(sk) }),
            None => Err(ProtocolError::SerializationError),
        }
    }

    /// A key pair whose private key is drawn from `rng`. Fails with
    /// `InternalError` where the generator hands out what is no private
    /// key.
    pub fn generate_random(group: KeGroup, rng: &mut StdRng) -> (r: Result<KeyPair, ProtocolError>)
        ensures
            r matches Ok(kp) ==> kp@.wf(group),
            r matches Err(e) ==> e == ProtocolError::InternalError,
    {
        let sk = random_scalar(group, rng);
        match KeyPair::from_private_key_slice(group, sk.as_slice()) {
            Ok(kp) => Ok(kp),
            Err(_) => Err(ProtocolError::InternalError),
        }
    }

    /// The public key.
    pub fn public(&self) -> (pk: &Vec<u8>)
        ensures
            pk@ == self@.public,
    {
        &self.public
    }

    /// The private key.
    pub fn private(&self) -> (sk: &Vec<u8>)
        ensures
            sk@ == self@.private,
    {
        &self.private
    }

    /// Overwrites the private key with zeros and leaves it empty.
    pub fn zeroize(&mut self)
        ensures
            final(self)@.private.len() == 0,
            final(self)@.public == old(self)@.public,
    {
        erase(&mut self.private);
    }
}

impl Drop for KeyPair {
    fn drop(&mut self)
        opens_invariants none
        no_unwind
    {
        erase(&mut self.private);
    }
}

} // verus!
