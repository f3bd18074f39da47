//! The recognized ciphersuites and the lengths that each one fixes.

use vstd::prelude::*;

verus! {

/// Length in bytes of every nonce of the protocol.
pub const NONCE_LEN: usize = 32;

/// The hash function; HKDF and HMAC are instantiated with the same one.
#[derive(Clone, Copy, Debug, PartialEq, Eq, Structural)]
pub enum HashAlg {
    Sha256,
    Sha512,
}

/// The OPRF configuration.
#[derive(Clone, Copy, Debug, PartialEq, Eq, Structural)]
pub enum OprfSuite {
    Ristretto255Sha512,
    P256Sha256,
}

/// The group in which the key exchange runs.
#[derive(Clone, Copy, Debug, PartialEq, Eq, Structural)]
pub enum KeGroup {
    Ristretto255,
    Curve25519,
    P256,
}

/// A ciphersuite: an OPRF (which fixes the hash, the KDF and the MAC) and
/// a key-exchange group. The key-stretching function is the identity.
#[derive(Clone, Copy, Debug, PartialEq, Eq, Structural)]
pub struct CipherSuite {
    pub oprf: OprfSuite,
    pub ke_group: KeGroup,
}

impl HashAlg {
    /// Length of a digest.
    pub open spec fn output_len(self) -> nat {
        match self {
            HashAlg::Sha256 => 32,
            HashAlg::Sha512 => 64,
        }
    }

    /// Length of a digest.
    pub fn output_size(&self) -> (n: usize)
        ensures
            n == self.output_len(),
    {
        match self {
            HashAlg::Sha256 => 32,
            HashAlg::Sha512 => 64,
        }
    }
}

impl OprfSuite {
    /// The hash that the OPRF is matched to.
    pub open spec fn hash_of(self) -> HashAlg {
        match self {
            OprfSuite::Ristretto255Sha512 => HashAlg::Sha512,
            OprfSuite::P256Sha256 => HashAlg::Sha256,
        }
    }

    /// The hash that the OPRF is matched to.
    pub fn hash(&self) -> (h: HashAlg)
        ensures
            h == self.hash_of(),
    {
        match self {
            OprfSuite::Ristretto255Sha512 => HashAlg::Sha512,
            OprfSuite::P256Sha256 => HashAlg::Sha256,
        }
    }

    /// Length of a serialized group element of the OPRF (`Noe`).
    pub open spec fn element_len(self) -> nat {
        match self {
            OprfSuite::Ristretto255Sha512 => 32,
            OprfSuite::P256Sha256 => 33,
        }
    }

    /// Length of a serialized group element of the OPRF (`Noe`).
    pub fn element_size(&self) -> (n: usize)
        ensures
            n == self.element_len(),
    {
        match self {
            OprfSuite::Ristretto255Sha512 => 32,
            OprfSuite::P256Sha256 => 33,
        }
    }

    /// Length of a serialized scalar of the OPRF, and so of an OPRF key
    /// (`Nok`).
    pub open spec fn scalar_len(self) -> nat {
        32
    }

    /// Length of a serialized scalar of the OPRF (`Nok`).
    pub fn scalar_size(&self) -> (n: usize)
        ensures
            n == self.scalar_len(),
    {
        32
    }
}

impl KeGroup {
    /// Length of a serialized public key (`Npk`).
    pub open spec fn pk_len(self) -> nat {
        match self {
            KeGroup::Ristretto255 => 32,
            KeGroup::Curve25519 => 32,
            KeGroup::P256 => 33,
        }
    }

    /// Length of a serialized public key (`Npk`).
    pub fn pk_size(&self) -> (n: usize)
        ensures
            n == self.pk_len(),
    {
        match self {
            KeGroup::Ristretto255 => 32,
            KeGroup::Curve25519 => 32,
            KeGroup::P256 => 33,
        }
    }

    /// Length of a serialized private key (`Nsk`).
    pub open spec fn sk_len(self) -> nat {
        32
    }

    /// Length of a serialized private key (`Nsk`).
    pub fn sk_size(&self) -> (n: usize)
        ensures
            n == self.sk_len(),
    {
        32
    }
}

impl CipherSuite {
    /// The hash of the suite.
    pub open spec fn hash_of(self) -> HashAlg {
        self.oprf.hash_of()
    }

    /// The hash of the suite.
    pub fn hash(&self) -> (h: HashAlg)
        ensures
            h == self.hash_of(),
    {
        self.oprf.hash()
    }

    /// `Nh`, which is also `Nm` and `Nx`: the length of a digest, of a MAC
    /// tag and of an HKDF output block.
    pub open spec fn nh(self) -> nat {
        self.hash_of().output_len()
    }

    /// `Npk`.
    pub open spec fn npk(self) -> nat {
        self.ke_group.pk_len()
    }

    /// `Nsk`.
    pub open spec fn nsk(self) -> nat {
        self.ke_group.sk_len()
    }

    /// `Noe`.
    pub open spec fn noe(self) -> nat {
        self.oprf.element_len()
    }

    /// `Nok`.
    pub open spec fn nok(self) -> nat {
        self.oprf.scalar_len()
    }

    /// Length of a serialized envelope: a nonce and a MAC tag.
    pub open spec fn envelope_len(self) -> nat {
        NONCE_LEN as nat + self.nh()
    }

    /// Length of the masked part of a credential response: a public key
    /// and an envelope.
    pub open spec fn masked_response_len(self) -> nat {
        self.npk() + self.envelope_len()
    }

    /// Length of the first key-exchange message: a nonce and a key share.
    pub open spec fn ke1_message_len(self) -> nat {
        NONCE_LEN as nat + self.npk()
    }

    /// Length of the second key-exchange message: a nonce, a key share and
    /// a MAC tag.
    pub open spec fn ke2_message_len(self) -> nat {
        NONCE_LEN as nat + self.npk() + self.nh()
    }

    /// Length of the third key-exchange message: a MAC tag.
    pub open spec fn ke3_message_len(self) -> nat {
        self.nh()
    }

    /// `Nh` as a machine integer.
    pub fn hash_size(&self) -> (n: usize)
        ensures
            n == self.nh(),
    {
        self.hash().output_size()
    }

    /// Length of a serialized envelope.
    pub fn envelope_size(&self) -> (n: usize)
        ensures
            n == self.envelope_len(),
    {
        NONCE_LEN + self.hash_size()
    }

    /// Length of the masked part of a credential response.
    pub fn masked_response_size(&self) -> (n: usize)
        ensures
            n == self.masked_response_len(),
    {
        self.ke_group.pk_size() + self.envelope_size()
    }

    /// Length of the first key-exchange message.
    pub fn ke1_message_size(&self) -> (n: usize)
        ensures
            n == self.ke1_message_len(),
    {
        NONCE_LEN + self.ke_group.pk_size()
    }

    /// Length of the second key-exchange message.
    pub fn ke2_message_size(&self) -> (n: usize)
        ensures
            n == self.ke2_message_len(),
    {
        NONCE_LEN + self.ke_group.pk_size() + self.hash_size()
    }
}

} // verus!
