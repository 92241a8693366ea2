//! Cryptographic core of a peer-to-peer communication node: long-term
//! identities, ephemeral key agreement, session-key derivation and an
//! authenticated channel with per-direction nonce counters.
//!
//! A connection runs through the modules in this order. [`identity`] holds
//! the node's Ed25519 keypair and its peer identifier. [`handshake`] signs
//! and verifies the offers that carry the ephemeral X25519 keys of
//! [`agreement`], and derives the session key. [`channel`] seals and opens
//! payloads under that key with the nonces of [`nonce`], and remembers in
//! [`replay`] which of the peer's nonces it has consumed. [`primitives`] is
//! the boundary to the cryptographic crates: what stands there is believed;
//! everything else is proved from it.

pub mod aead;
pub mod agreement;
pub mod bytes;
pub mod channel;
pub mod error;
pub mod handshake;
pub mod identity;
pub mod nonce;
pub mod primitives;
pub mod replay;

pub use crate::aead::{aead_decrypt, aead_encrypt};
pub use crate::agreement::{
    compute_shared_secret, derive_session_key, generate_ephemeral, x25519_generate,
    EphemeralKeyPair, SessionKey, SharedSecret, X25519Public, X25519Secret,
};
pub use crate::channel::{SealedMessage, SecureChannel};
pub use crate::error::CryptoError;
pub use crate::handshake::{
    begin_handshake, complete_handshake, connect_in_process, connect_with, HandshakeOffer,
};
pub use crate::identity::{
    ed25519_generate, sign, verify, IdentityKeyPair, PeerId, Signature, SigningKey, VerifyingKey,
};
pub use crate::nonce::Role;
