//! Long-term Ed25519 identities: signing keys, verifying keys, signatures and
//! the peer identifier derived from a verifying key.

use crate::bytes::{copy_exact, zeros};
use crate::primitives::{
    ed25519_accepts, ed25519_public, ed25519_public_key, ed25519_sign, ed25519_signature,
    ed25519_verify, fresh_ed25519_secret, sha256, sha256_digest, string_push, wipe_32,
};
use vstd::prelude::*;

verus! {

/// An Ed25519 signing seed. It is neither copied nor printed, and it is
/// overwritten with zeros when it is dropped.
pub struct SigningKey {
    bytes: [u8; 32],
}

/// An Ed25519 verifying key as it travels on the wire.
#[derive(Clone, Copy, Debug, PartialEq, Eq)]
pub struct VerifyingKey {
    bytes: [u8; 32],
}

/// An Ed25519 signature as it travels on the wire.
#[derive(Clone, Copy, Debug, PartialEq, Eq)]
pub struct Signature {
    bytes: [u8; 64],
}

/// The stable identifier of a node: the SHA-256 digest of its verifying key.
#[derive(Clone, Copy, Debug, PartialEq, Eq)]
pub struct PeerId {
    bytes: [u8; 32],
}

impl View for SigningKey {
    type V = Seq<u8>;

    closed spec fn view(&self) -> Seq<u8> {
        self.bytes@
    }
}

impl View for VerifyingKey {
    type V = Seq<u8>;

    closed spec fn view(&self) -> Seq<u8> {
        self.bytes@
    }
}

impl View for Signature {
    type V = Seq<u8>;

    closed spec fn view(&self) -> Seq<u8> {
        self.bytes@
    }
}

impl View for PeerId {
    type V = Seq<u8>;

    closed spec fn view(&self) -> Seq<u8> {
        self.bytes@
    }
}

impl Drop for SigningKey {
    fn drop(&mut self)
        opens_invariants none
        no_unwind
    {
        wipe_32(&mut self.bytes);
    }
}

impl SigningKey {
    /// A signing seed has 32 bytes.
    pub proof fn has_length(&self)
        ensures
            self@.len() == 32,
    {
    }

    /// Takes a 32-byte seed as a signing key.
    pub fn from_bytes(bytes: [u8; 32]) -> (key: SigningKey)
        ensures
            key@ == bytes@,
    {
        SigningKey { bytes }
    }

    /// The seed, for storage by the caller.
    pub fn to_bytes(&self) -> (bytes: [u8; 32])
        ensures
            bytes@ == self@,
    {
        self.bytes
    }

    /// Overwrites the seed with zeros, ahead of the drop that would do the
    /// same.
    pub fn wipe(&mut self)
        ensures
            final(self)@ == zeros(32),
    {
        wipe_32(&mut self.bytes);
    }

    /// The verifying key that belongs to this signing key.
    pub fn verifying_key(&self) -> (key: VerifyingKey)
        ensures
            key@ == ed25519_public(self@),
    {
        VerifyingKey { bytes: ed25519_public_key(&self.bytes) }
    }
}

impl VerifyingKey {
    /// A verifying key has 32 bytes.
    pub proof fn has_length(&self)
        ensures
            self@.len() == 32,
    {
    }

    /// Takes 32 bytes as a verifying key. Bytes that are no curve point make a
    /// key under which nothing verifies.
    pub fn from_bytes(bytes: [u8; 32]) -> (key: VerifyingKey)
        ensures
            key@ == bytes@,
    {
        VerifyingKey { bytes }
    }

    /// Reads a verifying key from a slice, which must hold exactly 32 bytes.
    pub fn from_slice(bytes: &[u8]) -> (key: Option<VerifyingKey>)
        ensures
            key is Some <==> bytes@.len() == 32,
            key matches Some(k) ==> k@ == bytes@,
    {
        match copy_exact::<32>(bytes) {
            Some(array) => Some(VerifyingKey { bytes: array }),
            None => None,
        }
    }

    /// The key's 32 bytes.
    pub fn as_bytes(&self) -> (bytes: &[u8; 32])
        ensures
            bytes@ == self@,
    {
        &self.bytes
    }

    /// The key's 32 bytes, copied.
    pub fn to_bytes(&self) -> (bytes: [u8; 32])
        ensures
            bytes@ == self@,
    {
        self.bytes
    }
}

impl Signature {
    /// A signature has 64 bytes.
    pub proof fn has_length(&self)
        ensures
            self@.len() == 64,
    {
    }

    /// Takes 64 bytes as a signature.
    pub fn from_bytes(bytes: [u8; 64]) -> (signature: Signature)
        ensures
            signature@ == bytes@,
    {
        Signature { bytes }
    }

    /// Reads a signature from a slice, which must hold exactly 64 bytes.
    pub fn from_slice(bytes: &[u8]) -> (signature: Option<Signature>)
        ensures
            signature is Some <==> bytes@.len() == 64,
            signature matches Some(s) ==> s@ == bytes@,
    {
        match copy_exact::<64>(bytes) {
            Some(array) => Some(Signature { bytes: array }),
            None => None,
        }
    }

    /// The signature's 64 bytes.
    pub fn to_bytes(&self) -> (bytes: [u8; 64])
        ensures
            bytes@ == self@,
    {
        self.bytes
    }
}

/// Generates a fresh Ed25519 keypair from the operating system's randomness.
/// Whatever seed is drawn, the verifying key is the one that belongs to it.
pub fn ed25519_generate() -> (pair: (SigningKey, VerifyingKey))
    ensures
        pair.1@ == ed25519_public(pair.0@),
{
    let signing = SigningKey { bytes: fresh_ed25519_secret() };
    let verifying = signing.verifying_key();
    (signing, verifying)
}

/// Signs a message. The signature is a function of key and message alone, and
/// verification under the key's own verifying key accepts it.
pub fn sign(signing_key: &SigningKey, msg: &[u8]) -> (sig: Signature)
    ensures
        sig@ == ed25519_signature(signing_key@, msg@),
        ed25519_accepts(ed25519_public(signing_key@), msg@, sig@),
{
    Signature { bytes: ed25519_sign(&signing_key.bytes, msg) }
}

/// Verifies a signature on a message. Never fails otherwise than by
/// answering `false`.
pub fn verify(verify_key: &VerifyingKey, msg: &[u8], sig: &Signature) -> (ok: bool)
    ensures
        ok == ed25519_accepts(verify_key@, msg@, sig@),
{
    ed25519_verify(&verify_key.bytes, msg, &sig.bytes)
}

/// What [`verify_bytes`] answers: a key of the wrong length or a signature of
/// the wrong length verifies nothing.
pub open spec fn accepts_bytes(public_key: Seq<u8>, message: Seq<u8>, signature: Seq<u8>) -> bool {
    public_key.len() == 32 && signature.len() == 64 && ed25519_accepts(
        public_key,
        message,
        signature,
    )
}

/// Verifies a signature where key and signature arrive as unchecked bytes
/// from a peer. Malformed input is answered with `false`, never with a panic.
pub fn verify_bytes(public_key: &[u8], message: &[u8], signature: &[u8]) -> (ok: bool)
    ensures
        ok == accepts_bytes(public_key@, message@, signature@),
{
    match VerifyingKey::from_slice(public_key) {
        None => false,
        Some(key) => match Signature::from_slice(signature) {
            None => false,
            Some(sig) => verify(&key, message, &sig),
        },
    }
}

/// The character for a hexadecimal digit below 16, in lower case.
pub open spec fn hex_digit(n: int) -> char {
    if n < 10 {
        (n + 48) as char
    } else {
        (n + 87) as char
    }
}

/// The lower-case hexadecimal text of a byte string, two digits per byte.
pub open spec fn hex_text(bytes: Seq<u8>) -> Seq<char> {
    Seq::new(
        2 * bytes.len(),
        |i: int|
            if i % 2 == 0 {
                hex_digit(bytes[i / 2] as int / 16)
            } else {
                hex_digit(bytes[i / 2] as int % 16)
            },
    )
}

/// Executable form of [`hex_digit`].
fn hex_char(n: u8) -> (c: char)
    requires
        n < 16,
    ensures
        c == hex_digit(n as int),
{
    if n < 10 {
        (n + 48) as char
    } else {
        (n + 87) as char
    }
}

impl PeerId {
    /// A peer identifier has 32 bytes.
    pub proof fn has_length(&self)
        ensures
            self@.len() == 32,
    {
    }

    /// Takes a 32-byte digest as a peer identifier.
    pub fn from_bytes(bytes: [u8; 32]) -> (id: PeerId)
        ensures
            id@ == bytes@,
    {
        PeerId { bytes }
    }

    /// The identifier's 32 bytes.
    pub fn to_bytes(&self) -> (bytes: [u8; 32])
        ensures
            bytes@ == self@,
    {
        self.bytes
    }

    /// The identifier as 64 lower-case hexadecimal digits.
    pub fn to_hex(&self) -> (text: String)
        ensures
            text@ == hex_text(self@),
    {
        let mut text = String::new();
        let mut i: usize = 0;
        while i < 32
            invariant
                i <= 32,
                text@ == hex_text(self@).subrange(0, 2 * i as int),
            decreases 32 - i,
        {
            let byte = self.bytes[i];
            string_push(&mut text, hex_char(byte / 16));
            string_push(&mut text, hex_char(byte % 16));
            i += 1;
            assert(text@ =~= hex_text(self@).subrange(0, 2 * i as int));
        }
        assert(text@ =~= hex_text(self@));
        text
    }
}

/// The identifier of the node that holds `key`: a function of the key alone.
pub fn peer_id_of(key: &VerifyingKey) -> (id: PeerId)
    ensures
        id@ == sha256(key@),
{
    PeerId { bytes: sha256_digest(&key.bytes) }
}

/// A node's long-term identity: an Ed25519 signing key together with the
/// verifying key that belongs to it. Created once and never changed.
pub struct IdentityKeyPair {
    signing: SigningKey,
    verifying: VerifyingKey,
}

impl IdentityKeyPair {
    #[verifier::type_invariant]
    spec fn matched(self) -> bool {
        self.verifying@ == ed25519_public(self.signing@)
    }

    /// The bytes of the verifying key.
    pub closed spec fn public(&self) -> Seq<u8> {
        self.verifying@
    }

    /// The bytes of the signing seed.
    pub closed spec fn secret(&self) -> Seq<u8> {
        self.signing@
    }

    /// Both keys of an identity have 32 bytes.
    pub proof fn has_lengths(&self)
        ensures
            self.secret().len() == 32,
            self.public().len() == 32,
    {
    }

    /// Generates a fresh identity from the operating system's randomness.
    pub fn generate() -> (identity: IdentityKeyPair)
        ensures
            identity.public() == ed25519_public(identity.secret()),
    {
        let (signing, verifying) = ed25519_generate();
        IdentityKeyPair { signing, verifying }
    }

    /// Restores an identity from a stored signing key.
    pub fn from_signing_key(signing: SigningKey) -> (identity: IdentityKeyPair)
        ensures
            identity.secret() == signing@,
            identity.public() == ed25519_public(signing@),
    {
        let verifying = signing.verifying_key();
        IdentityKeyPair { signing, verifying }
    }

    /// Gives up the identity for its signing key, for the owner to store or
    /// to wipe.
    pub fn into_signing_key(self) -> (signing: SigningKey)
        ensures
            signing@ == self.secret(),
            ed25519_public(signing@) == self.public(),
    {
        proof {
            use_type_invariant(&self);
        }
        self.signing
    }

    /// The verifying key, to hand to peers.
    pub fn verifying_key(&self) -> (key: VerifyingKey)
        ensures
            key@ == self.public(),
            key@ == ed25519_public(self.secret()),
    {
        proof {
            use_type_invariant(self);
        }
        self.verifying
    }

    /// The node's identifier: the digest of its verifying key.
    pub fn peer_id(&self) -> (id: PeerId)
        ensures
            id@ == sha256(self.public()),
    {
        peer_id_of(&self.verifying)
    }

    /// Signs a message with the long-term key. Verification under this
    /// identity's verifying key accepts the signature.
    pub fn sign(&self, message: &[u8]) -> (sig: Signature)
        ensures
            sig@ == ed25519_signature(self.secret(), message@),
            ed25519_accepts(self.public(), message@, sig@),
    {
        proof {
            use_type_invariant(self);
        }
        sign(&self.signing, message)
    }
}

} // verus!
