//! Authenticated encryption with associated data: ChaCha20-Poly1305 under a
//! 256-bit key and a 96-bit nonce.

use crate::error::CryptoError;
use crate::primitives::{
    aead_open, aead_seal, chacha_open, chacha_seal, opens_what_was_sealed, MAX_CIPHERTEXT_LEN,
    MAX_PLAINTEXT_LEN, TAG_LEN,
};
use vstd::prelude::*;

verus! {

/// Encrypts `plaintext` and authenticates it together with `aad`. The result
/// is the ciphertext followed by its 16-byte tag. Decrypting it under the same
/// key, nonce and associated data returns the plaintext.
///
/// A nonce must never be used twice under one key; the channel's counters
/// see to that. The cipher encrypts no plaintext longer than
/// [`MAX_PLAINTEXT_LEN`].
pub fn aead_encrypt(
    key: &[u8; 32],
    nonce: &[u8; 12],
    plaintext: &[u8],
    aad: &[u8],
) -> (ciphertext: Vec<u8>)
    requires
        plaintext@.len() <= MAX_PLAINTEXT_LEN,
    ensures
        ciphertext@ == aead_seal(key@, nonce@, aad@, plaintext@),
        ciphertext@.len() == plaintext@.len() + TAG_LEN,
        aead_open(key@, nonce@, aad@, ciphertext@) == Some(plaintext@),
{
    chacha_seal(key, nonce, aad, plaintext)
}

/// What the cipher answers for a ciphertext: nothing for one longer than
/// the cipher decrypts, which no encryption can have made; else what
/// ChaCha20-Poly1305 decryption returns.
pub open spec fn checked_open(
    key: Seq<u8>,
    nonce: Seq<u8>,
    aad: Seq<u8>,
    ciphertext: Seq<u8>,
) -> Option<Seq<u8>> {
    if ciphertext.len() > MAX_CIPHERTEXT_LEN {
        None
    } else {
        aead_open(key, nonce, aad, ciphertext)
    }
}

/// What decryption reports for each answer the cipher can give: the plaintext
/// where it authenticated, `AuthenticationFailed` where it did not.
pub open spec fn decrypt_result(opened: Option<Seq<u8>>) -> Result<Seq<u8>, CryptoError> {
    match opened {
        Some(plaintext) => Ok(plaintext),
        None => Err(CryptoError::AuthenticationFailed),
    }
}

/// The view of a result that carries bytes: the bytes, or the error.
pub open spec fn bytes_view(r: Result<Vec<u8>, CryptoError>) -> Result<Seq<u8>, CryptoError> {
    match r {
        Ok(bytes) => Ok(bytes@),
        Err(e) => Err(e),
    }
}

/// Whether a ciphertext is short enough for the cipher to decrypt.
pub fn within_cipher_limit(ciphertext: &[u8]) -> (r: bool)
    ensures
        r == (ciphertext@.len() <= MAX_CIPHERTEXT_LEN),
{
    ciphertext.len() as u64 <= MAX_CIPHERTEXT_LEN
}

/// Checks the tag over `ciphertext` and `aad` and decrypts. Any mismatch, of
/// key, nonce, associated data, ciphertext or tag, and any ciphertext longer
/// than [`MAX_CIPHERTEXT_LEN`], is reported as the one error
/// `AuthenticationFailed`, and no plaintext is released with it.
///
/// A plaintext is released exactly for the ciphertext that encryption gives
/// it under this key, nonce and associated data, never for another.
pub fn aead_decrypt(
    key: &[u8; 32],
    nonce: &[u8; 12],
    ciphertext: &[u8],
    aad: &[u8],
) -> (plaintext: Result<Vec<u8>, CryptoError>)
    ensures
        bytes_view(plaintext) == decrypt_result(checked_open(key@, nonce@, aad@, ciphertext@)),
        plaintext matches Ok(p) ==> p@.len() + TAG_LEN == ciphertext@.len(),
        plaintext matches Err(e) ==> e == CryptoError::AuthenticationFailed,
        ciphertext@.len() <= MAX_CIPHERTEXT_LEN ==> opens_what_was_sealed(
            key@,
            nonce@,
            aad@,
            ciphertext@,
            checked_open(key@, nonce@, aad@, ciphertext@),
        ),
{
    if !within_cipher_limit(ciphertext) {
        return Err(CryptoError::AuthenticationFailed);
    }
    match chacha_open(key, nonce, aad, ciphertext) {
        Some(bytes) => Ok(bytes),
        None => Err(CryptoError::AuthenticationFailed),
    }
}

} // verus!
