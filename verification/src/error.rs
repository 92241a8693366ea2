use vstd::prelude::*;

verus! {

/// The failures the core reports. Every cryptographic failure is one of these
/// opaque kinds; none carries detail an attacker could use as an oracle.
#[derive(Clone, Copy, Debug, PartialEq, Eq, Structural)]
pub enum CryptoError {
    /// Key material was malformed or degenerate.
    InvalidPublicKey,
    /// A signature or an authentication tag did not match.
    AuthenticationFailed,
    /// A message carried a nonce that was already consumed.
    ReplayDetected,
    /// The sending direction has used up its nonce space.
    NonceExhausted,
    /// The channel was torn down before the call.
    ChannelClosed,
}

impl CryptoError {
    /// Whether the error ends the life of the channel that reported it. The
    /// other errors reject one handshake or one message and nothing more.
    pub open spec fn ends_channel(self) -> bool {
        self == CryptoError::NonceExhausted || self == CryptoError::ChannelClosed
    }

    /// Executable form of [`CryptoError::ends_channel`].
    pub fn is_fatal(&self) -> (r: bool)
        ensures
            r == self.ends_channel(),
    {
        match self {
            CryptoError::NonceExhausted => true,
            CryptoError::ChannelClosed => true,
            _ => false,
        }
    }
}

} // verus!
