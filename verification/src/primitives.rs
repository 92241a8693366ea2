//! The boundary to the cryptographic crates. Every function here only calls
//! into an outside crate and is believed, not proved: its contract says what
//! that crate's source and documentation show, and no more. The functions
//! without a body give names to what those calls return, so that contracts
//! elsewhere can speak of a ciphertext or a digest without spelling out the
//! algorithm behind it.

use chacha20poly1305::aead::{Aead, KeyInit, Payload};
use chacha20poly1305::{ChaCha20Poly1305, Key, Nonce};
use ed25519_dalek::{Signer, Verifier};
use hkdf::Hkdf;
use rand_core::{OsRng, RngCore};
use sha2::{Digest, Sha256};
use vstd::prelude::*;
use zeroize::Zeroize;

verus! {

/// Length in bytes of a ChaCha20-Poly1305 nonce.
pub const NONCE_LEN: usize = 12;

/// Length in bytes of the Poly1305 tag that ends every ciphertext.
pub const TAG_LEN: usize = 16;

/// The longest plaintext ChaCha20-Poly1305 encrypts. The keystream has
/// `u32::MAX` blocks of 64 bytes; the first derives the Poly1305 key, and of
/// the rest the cipher gives out one fewer than there are: `u32::MAX - 1`
/// whole blocks, which is 64 times 4,294,967,294 bytes.
pub const MAX_PLAINTEXT_LEN: u64 = 274_877_906_816;

/// The longest ciphertext ChaCha20-Poly1305 decrypts: the longest plaintext
/// and its tag.
pub const MAX_CIPHERTEXT_LEN: u64 = 274_877_906_832;

/// The X25519 public key that belongs to a 32-byte secret.
pub uninterp spec fn x25519_public(secret: Seq<u8>) -> Seq<u8>;

/// The X25519 function of RFC 7748 on a secret and a peer's public key.
pub uninterp spec fn x25519_shared(secret: Seq<u8>, public: Seq<u8>) -> Seq<u8>;

/// The Ed25519 verifying key that belongs to a 32-byte signing seed.
pub uninterp spec fn ed25519_public(secret: Seq<u8>) -> Seq<u8>;

/// The Ed25519 signature of a message under a signing seed.
pub uninterp spec fn ed25519_signature(secret: Seq<u8>, message: Seq<u8>) -> Seq<u8>;

/// Whether Ed25519 verification accepts a signature on a message under a key.
pub uninterp spec fn ed25519_accepts(public: Seq<u8>, message: Seq<u8>, signature: Seq<u8>) -> bool;

/// The ChaCha20-Poly1305 ciphertext, tag appended, of a plaintext.
pub uninterp spec fn aead_seal(key: Seq<u8>, nonce: Seq<u8>, aad: Seq<u8>, plaintext: Seq<u8>) -> Seq<u8>;

/// What ChaCha20-Poly1305 decryption returns: the plaintext, or nothing when
/// the tag does not authenticate the ciphertext and associated data.
pub uninterp spec fn aead_open(key: Seq<u8>, nonce: Seq<u8>, aad: Seq<u8>, ciphertext: Seq<u8>) -> Option<Seq<u8>>;

/// The first 32 bytes of HKDF-SHA-256 output for a salt, key material and info.
pub uninterp spec fn hkdf_sha256(salt: Seq<u8>, ikm: Seq<u8>, info: Seq<u8>) -> Seq<u8>;

/// The SHA-256 digest of a byte string.
pub uninterp spec fn sha256(data: Seq<u8>) -> Seq<u8>;

/// Draws a fresh X25519 secret with `x25519_dalek::StaticSecret::random_from_rng`
/// on the operating system's generator. Nothing is claimed of the bytes drawn.
/// The generator aborts the process when the system has no randomness to give.
#[verifier::external_body]
pub(crate) fn fresh_x25519_secret() -> (secret: [u8; 32]) {
    x25519_dalek::StaticSecret::random_from_rng(OsRng).to_bytes()
}

/// Draws a fresh Ed25519 signing seed with `ed25519_dalek::SigningKey::generate`
/// on the operating system's generator. Nothing is claimed of the bytes drawn.
/// The generator aborts the process when the system has no randomness to give.
#[verifier::external_body]
pub(crate) fn fresh_ed25519_secret() -> (secret: [u8; 32]) {
    ed25519_dalek::SigningKey::generate(&mut OsRng).to_bytes()
}

/// Draws 16 bytes with `rand_core::OsRng::fill_bytes`. Nothing is claimed of
/// the bytes drawn.
#[verifier::external_body]
pub(crate) fn fresh_bytes_16() -> (bytes: [u8; 16]) {
    let mut bytes = [0u8; 16];
    OsRng.fill_bytes(&mut bytes);
    bytes
}

/// Calls `x25519_dalek::PublicKey::from` on the secret. The result depends on
/// the secret alone, so it is given the name `x25519_public`.
#[verifier::external_body]
pub(crate) fn x25519_public_key(secret: &[u8; 32]) -> (public: [u8; 32])
    ensures
        public@ == x25519_public(secret@),
{
    x25519_dalek::PublicKey::from(&x25519_dalek::StaticSecret::from(*secret)).to_bytes()
}

/// What Diffie-Hellman is for: where `public` is the public key of some
/// 32-byte secret, the holder of that secret computes the same `shared` from
/// the public key of `secret`.
pub open spec fn peer_computes(secret: Seq<u8>, public: Seq<u8>, shared: Seq<u8>) -> bool {
    forall|other: Seq<u8>|
        other.len() == 32 && public == x25519_public(other) ==> shared == #[trigger] x25519_shared(
            other,
            x25519_public(secret),
        )
}

/// Calls `x25519_dalek::x25519`, the byte-oriented function of RFC 7748. The
/// result depends on the two arguments alone, so it is given the name
/// `x25519_shared`; as the crate documents of this function, the two sides of
/// an exchange compute the same bytes; and, as it documents of the shared
/// secret, the all-zero public key forces the all-zero result.
#[verifier::external_body]
pub(crate) fn x25519_dh(secret: &[u8; 32], public: &[u8; 32]) -> (shared: [u8; 32])
    ensures
        shared@ == x25519_shared(secret@, public@),
        peer_computes(secret@, public@, shared@),
        public@ == crate::bytes::zeros(32) ==> shared@ == crate::bytes::zeros(32),
{
    x25519_dalek::x25519(*secret, *public)
}

/// Calls `ed25519_dalek::SigningKey::from_bytes` and reads its verifying key.
/// The result depends on the seed alone, so it is given the name
/// `ed25519_public`.
#[verifier::external_body]
pub(crate) fn ed25519_public_key(secret: &[u8; 32]) -> (public: [u8; 32])
    ensures
        public@ == ed25519_public(secret@),
{
    ed25519_dalek::SigningKey::from_bytes(secret).verifying_key().to_bytes()
}

/// Calls `ed25519_dalek::SigningKey::sign`. Ed25519 signing draws no
/// randomness, so the signature is named after the seed and the message; and
/// the crate documents that verification under the seed's own verifying key
/// accepts what signing produced.
#[verifier::external_body]
pub(crate) fn ed25519_sign(secret: &[u8; 32], message: &[u8]) -> (signature: [u8; 64])
    ensures
        signature@ == ed25519_signature(secret@, message@),
        ed25519_accepts(ed25519_public(secret@), message@, signature@),
{
    ed25519_dalek::SigningKey::from_bytes(secret).sign(message).to_bytes()
}

/// Calls `ed25519_dalek::VerifyingKey::from_bytes` and, where the bytes are a
/// curve point, `VerifyingKey::verify`; bytes that are no point verify
/// nothing. The answer depends on the three arguments alone, so it is given
/// the name `ed25519_accepts`.
#[verifier::external_body]
pub(crate) fn ed25519_verify(
    public: &[u8; 32],
    message: &[u8],
    signature: &[u8; 64],
) -> (ok: bool)
    ensures
        ok == ed25519_accepts(public@, message@, signature@),
{
    match ed25519_dalek::VerifyingKey::from_bytes(public) {
        Ok(key) => key.verify(message, &ed25519_dalek::Signature::from_bytes(signature)).is_ok(),
        Err(_) => false,
    }
}

/// Calls `ChaCha20Poly1305::encrypt`. The call fails on a plaintext that
/// needs more keystream than `u32::MAX - 1` blocks: by an error from
/// `u32::MAX` whole blocks on, by a panic of the keystream layer below that.
/// `requires` leaves both out. The ciphertext is named after the four
/// arguments; it is the plaintext's length plus a 16-byte tag; and decryption
/// with the same key, nonce and associated data gives the plaintext back.
#[verifier::external_body]
pub(crate) fn chacha_seal(
    key: &[u8; 32],
    nonce: &[u8; 12],
    aad: &[u8],
    plaintext: &[u8],
) -> (ciphertext: Vec<u8>)
    requires
        plaintext@.len() <= MAX_PLAINTEXT_LEN,
    ensures
        ciphertext@ == aead_seal(key@, nonce@, aad@, plaintext@),
        ciphertext@.len() == plaintext@.len() + TAG_LEN,
        aead_open(key@, nonce@, aad@, ciphertext@) == Some(plaintext@),
{
    ChaCha20Poly1305::new(Key::from_slice(key))
        .encrypt(Nonce::from_slice(nonce), Payload { msg: plaintext, aad })
        .expect("plaintext within the cipher's limit")
}

/// What decryption is to encryption: `opened` is a plaintext exactly where
/// the ciphertext is what encryption makes of that plaintext under the same
/// key, nonce and associated data.
pub open spec fn opens_what_was_sealed(
    key: Seq<u8>,
    nonce: Seq<u8>,
    aad: Seq<u8>,
    ciphertext: Seq<u8>,
    opened: Option<Seq<u8>>,
) -> bool {
    forall|plaintext: Seq<u8>|
        plaintext.len() <= MAX_PLAINTEXT_LEN ==> (opened == Some(plaintext) <==> ciphertext
            == #[trigger] aead_seal(key, nonce, aad, plaintext))
}

/// Calls `ChaCha20Poly1305::decrypt`. It answers with an error when the input
/// is shorter than a tag or does not authenticate. On an input whose tag is
/// valid and whose body needs more keystream than `u32::MAX - 1` blocks the
/// keystream layer panics; `requires` leaves such lengths out. The answer is
/// named after the four arguments; a plaintext that comes back is 16 bytes
/// shorter than the ciphertext. The cipher recomputes the tag over the body
/// and removes the same keystream that encryption adds, so a plaintext comes
/// back exactly for the ciphertext that encryption gives it.
#[verifier::external_body]
pub(crate) fn chacha_open(
    key: &[u8; 32],
    nonce: &[u8; 12],
    aad: &[u8],
    ciphertext: &[u8],
) -> (plaintext: Option<Vec<u8>>)
    requires
        ciphertext@.len() <= MAX_CIPHERTEXT_LEN,
    ensures
        match plaintext {
            Some(p) => aead_open(key@, nonce@, aad@, ciphertext@) == Some(p@)
                && p@.len() + TAG_LEN == ciphertext@.len(),
            None => aead_open(key@, nonce@, aad@, ciphertext@) is None,
        },
        opens_what_was_sealed(
            key@,
            nonce@,
            aad@,
            ciphertext@,
            match plaintext {
                Some(p) => Some(p@),
                None => None,
            },
        ),
{
    ChaCha20Poly1305::new(Key::from_slice(key))
        .decrypt(Nonce::from_slice(nonce), Payload { msg: ciphertext, aad })
        .ok()
}

/// Calls `Hkdf::<Sha256>::new` with the salt and key material, then
/// `Hkdf::expand` with the info into 32 bytes, a length the crate never
/// refuses. The output depends on the three arguments alone, so it is given the
/// name `hkdf_sha256`.
#[verifier::external_body]
pub(crate) fn hkdf_expand_32(salt: &[u8], ikm: &[u8], info: &[u8]) -> (okm: [u8; 32])
    ensures
        okm@ == hkdf_sha256(salt@, ikm@, info@),
{
    let mut okm = [0u8; 32];
    Hkdf::<Sha256>::new(Some(salt), ikm)
        .expand(info, &mut okm)
        .expect("32 bytes is a valid length");
    okm
}

/// Calls `Sha256::digest`. The digest depends on the data alone, so it is
/// given the name `sha256`.
#[verifier::external_body]
pub(crate) fn sha256_digest(data: &[u8]) -> (digest: [u8; 32])
    ensures
        digest@ == sha256(data@),
{
    Sha256::digest(data).into()
}

/// Calls `zeroize::Zeroize::zeroize` on the array, which overwrites every
/// element with zero by writes the compiler may not remove. It does nothing
/// else, so it cannot panic.
#[verifier::external_body]
pub(crate) fn wipe_32(bytes: &mut [u8; 32])
    ensures
        final(bytes)@ == crate::bytes::zeros(32),
    opens_invariants none
    no_unwind
{
    bytes.zeroize()
}

/// Calls `String::push`, which appends one character to the string.
#[verifier::external_body]
pub(crate) fn string_push(s: &mut String, c: char)
    ensures
        final(s)@ == old(s)@.push(c),
{
    s.push(c)
}

} // verus!
