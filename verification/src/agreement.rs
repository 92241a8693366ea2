//! X25519 key agreement: keypairs, the shared secret, and the session key
//! derived from it.

use crate::bytes::{copy_exact, is_all_zero, zeros};
use crate::error::CryptoError;
use crate::primitives::{
    fresh_x25519_secret, hkdf_expand_32, hkdf_sha256, peer_computes, wipe_32, x25519_dh,
    x25519_public, x25519_public_key, x25519_shared,
};
use vstd::prelude::*;

verus! {

/// The context string that separates session keys from any other use of the
/// same shared secret: the ASCII text `securecomm session key v1`.
pub const KDF_LABEL: [u8; 25] = [
    115, 101, 99, 117, 114, 101, 99, 111, 109, 109, 32, 115, 101, 115, 115, 105, 111, 110, 32, 107,
    101, 121, 32, 118, 49,
];

/// An X25519 secret scalar. It is neither copied nor printed, and it is
/// overwritten with zeros when it is dropped.
pub struct X25519Secret {
    bytes: [u8; 32],
}

/// An X25519 public key as it travels on the wire.
#[derive(Clone, Copy, Debug, PartialEq, Eq)]
pub struct X25519Public {
    bytes: [u8; 32],
}

/// The outcome of a Diffie-Hellman exchange that both sides contributed to.
/// It is key material for derivation only, never a key itself. It is
/// overwritten with zeros when it is dropped.
pub struct SharedSecret {
    bytes: [u8; 32],
}

/// A 32-byte symmetric key for one channel. It is overwritten with zeros
/// when it is dropped.
pub struct SessionKey {
    bytes: [u8; 32],
}

impl View for X25519Secret {
    type V = Seq<u8>;

    closed spec fn view(&self) -> Seq<u8> {
        self.bytes@
    }
}

impl View for X25519Public {
    type V = Seq<u8>;

    closed spec fn view(&self) -> Seq<u8> {
        self.bytes@
    }
}

impl View for SharedSecret {
    type V = Seq<u8>;

    closed spec fn view(&self) -> Seq<u8> {
        self.bytes@
    }
}

impl View for SessionKey {
    type V = Seq<u8>;

    closed spec fn view(&self) -> Seq<u8> {
        self.bytes@
    }
}

impl Drop for X25519Secret {
    fn drop(&mut self)
        opens_invariants none
        no_unwind
    {
        wipe_32(&mut self.bytes);
    }
}

impl X25519Secret {
    /// A secret scalar has 32 bytes.
    pub proof fn has_length(&self)
        ensures
            self@.len() == 32,
    {
    }

    /// Takes 32 bytes as a secret scalar.
    pub fn from_bytes(bytes: [u8; 32]) -> (secret: X25519Secret)
        ensures
            secret@ == bytes@,
    {
        X25519Secret { bytes }
    }

    /// The scalar's 32 bytes.
    pub fn to_bytes(&self) -> (bytes: [u8; 32])
        ensures
            bytes@ == self@,
    {
        self.bytes
    }

    /// Overwrites the secret with zeros, ahead of the drop that would do the
    /// same.
    pub fn wipe(&mut self)
        ensures
            final(self)@ == zeros(32),
    {
        wipe_32(&mut self.bytes);
    }

    /// The public key that belongs to this secret.
    pub fn public_key(&self) -> (public: X25519Public)
        ensures
            public@ == x25519_public(self@),
    {
        X25519Public { bytes: x25519_public_key(&self.bytes) }
    }

}

impl X25519Public {
    /// A public key has 32 bytes.
    pub proof fn has_length(&self)
        ensures
            self@.len() == 32,
    {
    }

    /// Takes 32 bytes as a public key.
    pub fn from_bytes(bytes: [u8; 32]) -> (public: X25519Public)
        ensures
            public@ == bytes@,
    {
        X25519Public { bytes }
    }

    /// Reads a public key from a slice, which must hold exactly 32 bytes.
    pub fn from_slice(bytes: &[u8]) -> (public: Option<X25519Public>)
        ensures
            public is Some <==> bytes@.len() == 32,
            public matches Some(p) ==> p@ == bytes@,
    {
        match copy_exact::<32>(bytes) {
            Some(array) => Some(X25519Public { bytes: array }),
            None => None,
        }
    }

    /// The key's 32 bytes.
    pub fn as_bytes(&self) -> (bytes: &[u8; 32])
        ensures
            bytes@ == self@,
    {
        &self.bytes
    }

    /// The key's 32 bytes, copied.
    pub fn to_bytes(&self) -> (bytes: [u8; 32])
        ensures
            bytes@ == self@,
    {
        self.bytes
    }
}

/// Generates a fresh X25519 keypair from the operating system's randomness.
/// Whatever secret is drawn, the public key is the one that belongs to it.
pub fn x25519_generate() -> (pair: (X25519Secret, X25519Public))
    ensures
        pair.1@ == x25519_public(pair.0@),
{
    let secret = X25519Secret { bytes: fresh_x25519_secret() };
    let public = secret.public_key();
    (secret, public)
}

/// An X25519 keypair made for one connection attempt. It is consumed when
/// the handshake completes and must not serve a second one.
pub struct EphemeralKeyPair {
    secret: X25519Secret,
    public: X25519Public,
}

impl EphemeralKeyPair {
    #[verifier::type_invariant]
    spec fn matched(self) -> bool {
        self.public@ == x25519_public(self.secret@)
    }

    /// The bytes of the secret scalar.
    pub closed spec fn secret_bytes(&self) -> Seq<u8> {
        self.secret@
    }

    /// The bytes of the public key.
    pub closed spec fn public_bytes(&self) -> Seq<u8> {
        self.public@
    }

    /// Both keys of a pair have 32 bytes.
    pub proof fn has_lengths(&self)
        ensures
            self.secret_bytes().len() == 32,
            self.public_bytes().len() == 32,
    {
    }

    /// Pairs a secret with the public key that belongs to it.
    pub fn from_secret(secret: X25519Secret) -> (pair: EphemeralKeyPair)
        ensures
            pair.secret_bytes() == secret@,
            pair.public_bytes() == x25519_public(secret@),
    {
        let public = secret.public_key();
        EphemeralKeyPair { secret, public }
    }

    /// The public key, to send to the peer.
    pub fn public_key(&self) -> (public: X25519Public)
        ensures
            public@ == self.public_bytes(),
            public@ == x25519_public(self.secret_bytes()),
    {
        proof {
            use_type_invariant(self);
        }
        self.public
    }

    /// Gives up the pair for its secret.
    pub fn into_secret(self) -> (secret: X25519Secret)
        ensures
            secret@ == self.secret_bytes(),
            x25519_public(secret@) == self.public_bytes(),
    {
        proof {
            use_type_invariant(&self);
        }
        self.secret
    }
}

/// Generates the keypair for one connection attempt.
pub fn generate_ephemeral() -> (pair: EphemeralKeyPair)
    ensures
        pair.public_bytes() == x25519_public(pair.secret_bytes()),
{
    let (secret, public) = x25519_generate();
    EphemeralKeyPair { secret, public }
}

/// What becomes of the raw output of X25519: the all-zero output, which
/// low-order peer keys force whatever the local secret, is refused as
/// `InvalidPublicKey`; every other output is the shared secret.
pub open spec fn shared_secret_of(raw: Seq<u8>) -> Result<Seq<u8>, CryptoError> {
    if raw == zeros(32) {
        Err(CryptoError::InvalidPublicKey)
    } else {
        Ok(raw)
    }
}

/// The view of a shared-secret result.
pub open spec fn shared_view(r: Result<SharedSecret, CryptoError>) -> Result<Seq<u8>, CryptoError> {
    match r {
        Ok(shared) => Ok(shared@),
        Err(e) => Err(e),
    }
}

impl Drop for SharedSecret {
    fn drop(&mut self)
        opens_invariants none
        no_unwind
    {
        wipe_32(&mut self.bytes);
    }
}

impl SharedSecret {
    /// A shared secret has 32 bytes.
    pub proof fn has_length(&self)
        ensures
            self@.len() == 32,
    {
    }

    /// Accepts the raw output of X25519 as a shared secret unless it is all
    /// zero.
    pub fn from_raw(raw: [u8; 32]) -> (shared: Result<SharedSecret, CryptoError>)
        ensures
            shared_view(shared) == shared_secret_of(raw@),
    {
        if is_all_zero(&raw) {
            Err(CryptoError::InvalidPublicKey)
        } else {
            Ok(SharedSecret { bytes: raw })
        }
    }

    /// The secret's 32 bytes.
    pub fn to_bytes(&self) -> (bytes: [u8; 32])
        ensures
            bytes@ == self@,
    {
        self.bytes
    }

    /// Overwrites the secret with zeros, ahead of the drop that would do the
    /// same.
    pub fn wipe(&mut self)
        ensures
            final(self)@ == zeros(32),
    {
        wipe_32(&mut self.bytes);
    }

}

/// Computes the X25519 shared secret of a local secret and a peer's public
/// key, and refuses a peer key that leaves the secret without a contribution
/// from the local side. The peer that holds the secret behind
/// `remote_public` computes the same bytes from the local public key. The
/// all-zero key is always refused.
pub fn compute_shared_secret(
    local_secret: &X25519Secret,
    remote_public: &X25519Public,
) -> (shared: Result<SharedSecret, CryptoError>)
    ensures
        shared_view(shared) == shared_secret_of(x25519_shared(local_secret@, remote_public@)),
        peer_computes(
            local_secret@,
            remote_public@,
            x25519_shared(local_secret@, remote_public@),
        ),
        remote_public@ == zeros(32) ==> shared matches Err(CryptoError::InvalidPublicKey),
{
    SharedSecret::from_raw(x25519_dh(&local_secret.bytes, &remote_public.bytes))
}

/// The session key for a shared secret and a handshake transcript:
/// HKDF-SHA-256 with the transcript as salt, the shared secret as key
/// material and [`KDF_LABEL`] as context.
pub open spec fn session_key_bytes(shared: Seq<u8>, transcript: Seq<u8>) -> Seq<u8> {
    hkdf_sha256(transcript, shared, KDF_LABEL@)
}

/// Derives the 32-byte session key. The key is a function of the shared
/// secret and the transcript alone.
pub fn derive_session_key(shared_secret: &SharedSecret, transcript: &[u8]) -> (key: SessionKey)
    ensures
        key@ == session_key_bytes(shared_secret@, transcript@),
        key@.len() == 32,
{
    let label = KDF_LABEL;
    SessionKey { bytes: hkdf_expand_32(transcript, &shared_secret.bytes, &label) }
}

/// Derivation is deterministic: equal shared secrets and equal transcripts
/// give equal session keys.
pub proof fn session_key_deterministic(
    shared_a: Seq<u8>,
    transcript_a: Seq<u8>,
    shared_b: Seq<u8>,
    transcript_b: Seq<u8>,
)
    requires
        shared_a == shared_b,
        transcript_a == transcript_b,
    ensures
        session_key_bytes(shared_a, transcript_a) == session_key_bytes(shared_b, transcript_b),
{
}

impl Drop for SessionKey {
    fn drop(&mut self)
        opens_invariants none
        no_unwind
    {
        wipe_32(&mut self.bytes);
    }
}

impl SessionKey {
    /// A session key has 32 bytes.
    pub proof fn has_length(&self)
        ensures
            self@.len() == 32,
    {
    }

    /// Takes 32 bytes as a session key.
    pub fn from_bytes(bytes: [u8; 32]) -> (key: SessionKey)
        ensures
            key@ == bytes@,
    {
        SessionKey { bytes }
    }

    /// The key's 32 bytes.
    pub fn to_bytes(&self) -> (bytes: [u8; 32])
        ensures
            bytes@ == self@,
    {
        self.bytes
    }

    /// Overwrites the key with zeros, ahead of the drop that would do the
    /// same.
    pub fn wipe(&mut self)
        ensures
            final(self)@ == zeros(32),
    {
        wipe_32(&mut self.bytes);
    }

}

} // verus!
