//! The handshake that binds an ephemeral key exchange to long-term
//! identities and ends in a secure channel.
//!
//! Each peer makes an ephemeral X25519 keypair and sends an offer: its
//! ephemeral public key, a freshness value, and its signature over the
//! ephemeral key, the receiver's peer identifier and the freshness value.
//! The receiver verifies the signature before it uses the key. Both then
//! derive the session key from the shared secret and a transcript that
//! names both ephemeral keys and both identifiers in one agreed order.

use crate::agreement::{
    compute_shared_secret, derive_session_key, generate_ephemeral, session_key_bytes,
    shared_secret_of, EphemeralKeyPair, X25519Public,
};
use crate::bytes::{copy_exact, equal_32, lemma_precedes_total, precedes, precedes_32};
use crate::channel::{ChannelView, SecureChannel};
use crate::error::CryptoError;
use crate::identity::{
    peer_id_of, verify, IdentityKeyPair, PeerId, Signature, VerifyingKey,
};
use crate::nonce::Role;
use crate::primitives::{
    ed25519_accepts, ed25519_signature, fresh_bytes_16, peer_computes, sha256, x25519_public,
    x25519_shared,
};
use vstd::prelude::*;

verus! {

/// Length in bytes of the freshness value in an offer.
pub const FRESHNESS_LEN: usize = 16;

/// Length in bytes of the message a peer signs for an offer.
pub const BINDING_LEN: usize = 80;

/// Length in bytes of an offer on the wire.
pub const OFFER_LEN: usize = 112;

/// The message a peer sends to open a handshake.
#[derive(Clone, Copy, Debug, PartialEq, Eq)]
pub struct HandshakeOffer {
    /// The sender's ephemeral X25519 public key.
    pub ephemeral_public: X25519Public,
    /// A value the sender drew for this offer alone.
    pub freshness: [u8; 16],
    /// The sender's signature that binds the two to the receiver.
    pub signature: Signature,
}

/// What an offer is to the specification: three byte strings.
pub struct OfferView {
    /// The sender's ephemeral X25519 public key.
    pub ephemeral_public: Seq<u8>,
    /// The sender's freshness value.
    pub freshness: Seq<u8>,
    /// The sender's signature over the binding message.
    pub signature: Seq<u8>,
}

impl View for HandshakeOffer {
    type V = OfferView;

    open spec fn view(&self) -> OfferView {
        OfferView {
            ephemeral_public: self.ephemeral_public@,
            freshness: self.freshness@,
            signature: self.signature@,
        }
    }
}

/// The bytes a peer signs: its ephemeral public key, then the peer
/// identifier of the receiver, then the freshness value.
pub open spec fn binding_message(
    ephemeral_public: Seq<u8>,
    recipient: Seq<u8>,
    freshness: Seq<u8>,
) -> Seq<u8> {
    ephemeral_public + recipient + freshness
}

/// Whether an offer is bound to `recipient` by the holder of
/// `sender_identity`: the signature verifies over the offer's own key and
/// freshness value and the recipient's identifier.
pub open spec fn offer_is_authentic(
    offer: OfferView,
    recipient: Seq<u8>,
    sender_identity: Seq<u8>,
) -> bool {
    ed25519_accepts(
        sender_identity,
        binding_message(offer.ephemeral_public, recipient, offer.freshness),
        offer.signature,
    )
}

/// The role of the peer that holds `local_public`: the peer whose ephemeral
/// key comes first sends in the first half of the nonce space.
pub open spec fn role_of(local_public: Seq<u8>, peer_public: Seq<u8>) -> Role {
    if precedes(local_public, peer_public) {
        Role::First
    } else {
        Role::Second
    }
}

/// The handshake transcript: both ephemeral public keys, then both peer
/// identifiers, each pair with the first role's value in front.
pub open spec fn transcript(
    local_public: Seq<u8>,
    local_id: Seq<u8>,
    peer_public: Seq<u8>,
    peer_id: Seq<u8>,
) -> Seq<u8> {
    if precedes(local_public, peer_public) {
        local_public + peer_public + local_id + peer_id
    } else {
        peer_public + local_public + peer_id + local_id
    }
}

/// The session key as the holder of `secret` and the identifier `own_id`
/// derives it with a peer that sent `their_public` and holds `their_id`.
pub open spec fn agreed_key(
    secret: Seq<u8>,
    own_id: Seq<u8>,
    their_public: Seq<u8>,
    their_id: Seq<u8>,
) -> Seq<u8> {
    session_key_bytes(
        x25519_shared(secret, their_public),
        transcript(x25519_public(secret), own_id, their_public, their_id),
    )
}

/// How a handshake ends for the peer that holds `local_secret` and the
/// identifier `local_id`, given the other side's offer and the identity it
/// claims.
///
/// An offer whose signature does not bind its ephemeral key to this peer
/// fails with `AuthenticationFailed`. An authentic offer whose ephemeral key
/// is this peer's own, or leaves the shared secret all zero, fails with
/// `InvalidPublicKey`. Otherwise the channel is established under the
/// session key derived from the shared secret and the transcript.
pub open spec fn handshake_outcome(
    local_secret: Seq<u8>,
    local_id: Seq<u8>,
    offer: OfferView,
    peer_identity: Seq<u8>,
) -> Result<ChannelView, CryptoError> {
    let local_public = x25519_public(local_secret);
    if !offer_is_authentic(offer, local_id, peer_identity) {
        Err(CryptoError::AuthenticationFailed)
    } else if offer.ephemeral_public == local_public {
        Err(CryptoError::InvalidPublicKey)
    } else {
        match shared_secret_of(x25519_shared(local_secret, offer.ephemeral_public)) {
            Err(e) => Err(e),
            Ok(_) => Ok(
                ChannelView::established(
                    agreed_key(
                        local_secret,
                        local_id,
                        offer.ephemeral_public,
                        sha256(peer_identity),
                    ),
                    role_of(local_public, offer.ephemeral_public),
                ),
            ),
        }
    }
}

/// The view of a handshake's result.
pub open spec fn channel_view(r: Result<SecureChannel, CryptoError>) -> Result<
    ChannelView,
    CryptoError,
> {
    match r {
        Ok(channel) => Ok(channel@),
        Err(e) => Err(e),
    }
}

/// Builds the bytes to sign for an offer.
pub fn build_binding_message(
    ephemeral_public: &X25519Public,
    recipient: &PeerId,
    freshness: &[u8; 16],
) -> (message: Vec<u8>)
    ensures
        message@ == binding_message(ephemeral_public@, recipient@, freshness@),
        message@.len() == BINDING_LEN,
{
    proof {
        ephemeral_public.has_length();
        recipient.has_length();
    }
    let recipient_bytes = recipient.to_bytes();
    let mut message: Vec<u8> = Vec::new();
    message.extend_from_slice(ephemeral_public.as_bytes().as_slice());
    message.extend_from_slice(recipient_bytes.as_slice());
    message.extend_from_slice(freshness.as_slice());
    message
}

/// Signs an offer for `recipient` over a given ephemeral keypair and a given
/// freshness value. The offer verifies under the signer's verifying key.
pub fn make_offer(
    identity: &IdentityKeyPair,
    recipient: &PeerId,
    ephemeral: &EphemeralKeyPair,
    freshness: [u8; 16],
) -> (offer: HandshakeOffer)
    ensures
        offer@.ephemeral_public == ephemeral.public_bytes(),
        offer@.ephemeral_public == x25519_public(ephemeral.secret_bytes()),
        offer@.freshness == freshness@,
        offer@.signature == ed25519_signature(
            identity.secret(),
            binding_message(ephemeral.public_bytes(), recipient@, freshness@),
        ),
        offer_is_authentic(offer@, recipient@, identity.public()),
{
    let ephemeral_public = ephemeral.public_key();
    let message = build_binding_message(&ephemeral_public, recipient, &freshness);
    let signature = identity.sign(message.as_slice());
    HandshakeOffer { ephemeral_public, freshness, signature }
}

/// Opens a handshake with the peer `recipient`: draws an ephemeral keypair
/// and a freshness value and signs the offer. Whatever was drawn, the offer
/// carries the pair's public key and verifies under this identity's
/// verifying key.
pub fn begin_handshake(identity: &IdentityKeyPair, recipient: &PeerId) -> (begun: (
    EphemeralKeyPair,
    HandshakeOffer,
))
    ensures
        begun.0.public_bytes() == x25519_public(begun.0.secret_bytes()),
        begun.1@.ephemeral_public == begun.0.public_bytes(),
        begun.1@.signature == ed25519_signature(
            identity.secret(),
            binding_message(begun.0.public_bytes(), recipient@, begun.1@.freshness),
        ),
        offer_is_authentic(begun.1@, recipient@, identity.public()),
{
    let ephemeral = generate_ephemeral();
    let freshness = fresh_bytes_16();
    let offer = make_offer(identity, recipient, &ephemeral, freshness);
    (ephemeral, offer)
}

/// Verifies that an offer was signed for `recipient` by the holder of
/// `sender_identity`.
pub fn verify_offer(
    offer: &HandshakeOffer,
    recipient: &PeerId,
    sender_identity: &VerifyingKey,
) -> (ok: bool)
    ensures
        ok == offer_is_authentic(offer@, recipient@, sender_identity@),
{
    let message = build_binding_message(&offer.ephemeral_public, recipient, &offer.freshness);
    verify(sender_identity, message.as_slice(), &offer.signature)
}

/// Executable form of [`role_of`].
pub fn assign_role(local_public: &X25519Public, peer_public: &X25519Public) -> (role: Role)
    ensures
        role == role_of(local_public@, peer_public@),
{
    if precedes_32(local_public.as_bytes(), peer_public.as_bytes()) {
        Role::First
    } else {
        Role::Second
    }
}

/// Executable form of [`transcript`].
pub fn handshake_transcript(
    local_public: &X25519Public,
    local_id: &PeerId,
    peer_public: &X25519Public,
    peer_id: &PeerId,
) -> (bytes: Vec<u8>)
    ensures
        bytes@ == transcript(local_public@, local_id@, peer_public@, peer_id@),
{
    let local_id_bytes = local_id.to_bytes();
    let peer_id_bytes = peer_id.to_bytes();
    let mut bytes: Vec<u8> = Vec::new();
    if precedes_32(local_public.as_bytes(), peer_public.as_bytes()) {
        bytes.extend_from_slice(local_public.as_bytes().as_slice());
        bytes.extend_from_slice(peer_public.as_bytes().as_slice());
        bytes.extend_from_slice(local_id_bytes.as_slice());
        bytes.extend_from_slice(peer_id_bytes.as_slice());
    } else {
        bytes.extend_from_slice(peer_public.as_bytes().as_slice());
        bytes.extend_from_slice(local_public.as_bytes().as_slice());
        bytes.extend_from_slice(peer_id_bytes.as_slice());
        bytes.extend_from_slice(local_id_bytes.as_slice());
    }
    bytes
}

/// Whether the two ends of a handshake agree: the peer that holds the
/// secret behind the ephemeral key it offered derives the channel's key from
/// its own side, and takes the opposite role.
pub open spec fn peer_agrees(
    channel: ChannelView,
    local_public: Seq<u8>,
    local_id: Seq<u8>,
    peer_public: Seq<u8>,
    peer_id: Seq<u8>,
) -> bool {
    forall|peer_secret: Seq<u8>|
        peer_secret.len() == 32 && x25519_public(peer_secret) == peer_public ==> {
            &&& channel.key == #[trigger] agreed_key(peer_secret, peer_id, local_public, local_id)
            &&& channel.role == role_of(peer_public, local_public).other()
        }
}

/// Completes a handshake on the other side's offer. The ephemeral keypair
/// is consumed: its secret and the shared secret are dropped, and with that
/// erased, before the call returns, whatever the outcome.
///
/// Where the handshake succeeds and the peer completes its own side on this
/// side's offer, the two channels hold the same key in opposite roles. An
/// authentic offer that carries the all-zero key always ends in
/// `InvalidPublicKey`.
pub fn complete_handshake(
    local: EphemeralKeyPair,
    local_id: &PeerId,
    peer_offer: &HandshakeOffer,
    peer_identity: &VerifyingKey,
) -> (channel: Result<SecureChannel, CryptoError>)
    ensures
        channel_view(channel) == handshake_outcome(
            local.secret_bytes(),
            local_id@,
            peer_offer@,
            peer_identity@,
        ),
        channel matches Ok(c) ==> c@.wf(),
        channel matches Ok(c) ==> peer_agrees(
            c@,
            local.public_bytes(),
            local_id@,
            peer_offer@.ephemeral_public,
            sha256(peer_identity@),
        ),
        channel is Ok ==> peer_computes(
            local.secret_bytes(),
            peer_offer@.ephemeral_public,
            x25519_shared(local.secret_bytes(), peer_offer@.ephemeral_public),
        ),
        offer_is_authentic(peer_offer@, local_id@, peer_identity@) && peer_offer@.ephemeral_public
            == crate::bytes::zeros(32) ==> channel matches Err(CryptoError::InvalidPublicKey),
{
    let local_public = local.public_key();
    let secret = local.into_secret();
    if !verify_offer(peer_offer, local_id, peer_identity) {
        return Err(CryptoError::AuthenticationFailed);
    }
    if equal_32(local_public.as_bytes(), peer_offer.ephemeral_public.as_bytes()) {
        return Err(CryptoError::InvalidPublicKey);
    }
    let shared = match compute_shared_secret(&secret, &peer_offer.ephemeral_public) {
        Ok(shared) => shared,
        Err(e) => {
            return Err(e);
        },
    };
    let peer_id = peer_id_of(peer_identity);
    let bytes = handshake_transcript(
        &local_public,
        local_id,
        &peer_offer.ephemeral_public,
        &peer_id,
    );
    let key = derive_session_key(&shared, bytes.as_slice());
    let role = assign_role(&local_public, &peer_offer.ephemeral_public);
    let channel = SecureChannel::new(key, role);
    proof {
        let ghost peer_public = peer_offer@.ephemeral_public;
        local_public.has_length();
        peer_offer.ephemeral_public.has_length();
        transcript_is_shared(local_public@, local_id@, peer_public, peer_id@);
        roles_are_opposite(local_public@, peer_public);
    }
    Ok(channel)
}

/// Runs both sides of a handshake between two identities held in one
/// process, and returns the two ends of the channel, the first identity's
/// end in front.
///
/// The two ephemeral secrets are drawn here, and what comes back is what
/// [`connection_outcome`] gives for the secrets drawn. So two ends that come
/// back hold the same session key in opposite roles, and what one seals, the
/// other opens; and the only failure is `InvalidPublicKey`, for a draw that
/// gives both sides one key or leaves the shared secret all zero.
pub fn connect_in_process(first: &IdentityKeyPair, second: &IdentityKeyPair) -> (ends: Result<
    (SecureChannel, SecureChannel),
    CryptoError,
>)
    ensures
        exists|first_secret: Seq<u8>, second_secret: Seq<u8>|
            first_secret.len() == 32 && second_secret.len() == 32 && ends_view(ends)
                == #[trigger] connection_outcome(
                first_secret,
                sha256(first.public()),
                second_secret,
                sha256(second.public()),
            ),
        ends matches Err(e) ==> e == CryptoError::InvalidPublicKey,
        ends matches Ok(pair) ==> {
            &&& pair.0@ == ChannelView::established(pair.0@.key, pair.0@.role)
            &&& pair.1@ == ChannelView::established(pair.0@.key, pair.0@.role.other())
            &&& pair.0@.wf()
            &&& pair.1@.wf()
        },
{
    let first_pair = generate_ephemeral();
    let second_pair = generate_ephemeral();
    proof {
        first_pair.has_lengths();
        second_pair.has_lengths();
    }
    let first_freshness = fresh_bytes_16();
    let second_freshness = fresh_bytes_16();
    connect_with(first, second, first_pair, first_freshness, second_pair, second_freshness)
}

/// How a handshake between two honest peers ends, the first holding
/// `first_secret` and the identifier `first_id`, the second `second_secret`
/// and `second_id`. Each signs its own offer, so neither fails
/// authentication. Two secrets with one public key, and a shared secret that
/// is all zero, end it with `InvalidPublicKey`. Otherwise both ends are
/// established under the one session key, in opposite roles.
pub open spec fn connection_outcome(
    first_secret: Seq<u8>,
    first_id: Seq<u8>,
    second_secret: Seq<u8>,
    second_id: Seq<u8>,
) -> Result<(ChannelView, ChannelView), CryptoError> {
    let first_public = x25519_public(first_secret);
    let second_public = x25519_public(second_secret);
    if first_public == second_public {
        Err(CryptoError::InvalidPublicKey)
    } else if x25519_shared(first_secret, second_public) == crate::bytes::zeros(32) {
        Err(CryptoError::InvalidPublicKey)
    } else {
        let key = agreed_key(first_secret, first_id, second_public, second_id);
        let role = role_of(first_public, second_public);
        Ok((ChannelView::established(key, role), ChannelView::established(key, role.other())))
    }
}

/// The view of the two ends of a channel, or of the error in their place.
pub open spec fn ends_view(ends: Result<(SecureChannel, SecureChannel), CryptoError>) -> Result<
    (ChannelView, ChannelView),
    CryptoError,
> {
    match ends {
        Ok(pair) => Ok((pair.0@, pair.1@)),
        Err(e) => Err(e),
    }
}

/// Runs both sides of a handshake on given ephemeral keypairs and freshness
/// values: each identity signs its offer for the other, and each side
/// completes on the other's offer. Both keypairs are consumed.
pub fn connect_with(
    first: &IdentityKeyPair,
    second: &IdentityKeyPair,
    first_pair: EphemeralKeyPair,
    first_freshness: [u8; 16],
    second_pair: EphemeralKeyPair,
    second_freshness: [u8; 16],
) -> (ends: Result<(SecureChannel, SecureChannel), CryptoError>)
    ensures
        ends_view(ends) == connection_outcome(
            first_pair.secret_bytes(),
            sha256(first.public()),
            second_pair.secret_bytes(),
            sha256(second.public()),
        ),
        ends matches Ok(pair) ==> pair.0@.wf() && pair.1@.wf(),
{
    let first_id = first.peer_id();
    let second_id = second.peer_id();
    let first_key = first.verifying_key();
    let second_key = second.verifying_key();
    let first_offer = make_offer(first, &second_id, &first_pair, first_freshness);
    let second_offer = make_offer(second, &first_id, &second_pair, second_freshness);
    let ghost first_secret = first_pair.secret_bytes();
    let ghost second_secret = second_pair.secret_bytes();
    let ghost first_public = first_pair.public_bytes();
    let ghost second_public = second_pair.public_bytes();
    proof {
        first_pair.has_lengths();
        second_pair.has_lengths();
    }
    let first_end = match complete_handshake(first_pair, &first_id, &second_offer, &second_key) {
        Ok(end) => end,
        Err(e) => {
            return Err(e);
        },
    };
    proof {
        assert(x25519_shared(first_secret, second_public) == x25519_shared(
            second_secret,
            first_public,
        ));
        transcript_is_shared(first_public, first_id@, second_public, second_id@);
        roles_are_opposite(first_public, second_public);
    }
    let second_end = match complete_handshake(second_pair, &second_id, &first_offer, &first_key) {
        Ok(end) => end,
        Err(e) => {
            return Err(e);
        },
    };
    Ok((first_end, second_end))
}

/// The two peers of a handshake hold opposite roles, so their sending
/// directions use disjoint halves of the nonce space.
pub proof fn roles_are_opposite(local_public: Seq<u8>, peer_public: Seq<u8>)
    requires
        local_public.len() == peer_public.len(),
        local_public != peer_public,
    ensures
        role_of(peer_public, local_public) == role_of(local_public, peer_public).other(),
{
    lemma_precedes_total(local_public, peer_public);
}

/// The two peers of a handshake compute the same transcript, each from its
/// own point of view.
pub proof fn transcript_is_shared(
    local_public: Seq<u8>,
    local_id: Seq<u8>,
    peer_public: Seq<u8>,
    peer_id: Seq<u8>,
)
    requires
        local_public.len() == peer_public.len(),
        local_public != peer_public,
    ensures
        transcript(peer_public, peer_id, local_public, local_id) == transcript(
            local_public,
            local_id,
            peer_public,
            peer_id,
        ),
{
    lemma_precedes_total(local_public, peer_public);
}

/// The transcript binds the identifiers: with the same ephemeral keys,
/// different identifiers, or the same identifiers swapped, give a different
/// transcript.
pub proof fn transcript_binds_identities(
    local_public: Seq<u8>,
    peer_public: Seq<u8>,
    local_id_a: Seq<u8>,
    peer_id_a: Seq<u8>,
    local_id_b: Seq<u8>,
    peer_id_b: Seq<u8>,
)
    requires
        local_id_a.len() == 32,
        peer_id_a.len() == 32,
        local_id_b.len() == 32,
        peer_id_b.len() == 32,
        transcript(local_public, local_id_a, peer_public, peer_id_a) == transcript(
            local_public,
            local_id_b,
            peer_public,
            peer_id_b,
        ),
    ensures
        local_id_a == local_id_b,
        peer_id_a == peer_id_b,
{
    let ta = transcript(local_public, local_id_a, peer_public, peer_id_a);
    let tb = transcript(local_public, local_id_b, peer_public, peer_id_b);
    let n: int = (local_public.len() + peer_public.len()) as int;
    assert(ta.len() == n + 64);
    if precedes(local_public, peer_public) {
        assert(ta.subrange(n, n + 32) =~= local_id_a);
        assert(tb.subrange(n, n + 32) =~= local_id_b);
        assert(ta.subrange(n + 32, n + 64) =~= peer_id_a);
        assert(tb.subrange(n + 32, n + 64) =~= peer_id_b);
    } else {
        assert(ta.subrange(n, n + 32) =~= peer_id_a);
        assert(tb.subrange(n, n + 32) =~= peer_id_b);
        assert(ta.subrange(n + 32, n + 64) =~= local_id_a);
        assert(tb.subrange(n + 32, n + 64) =~= local_id_b);
    }
}

/// A signature binds exactly one ephemeral key, one receiver and one
/// freshness value: the signed bytes determine all three.
pub proof fn binding_is_unambiguous(
    key_a: Seq<u8>,
    recipient_a: Seq<u8>,
    freshness_a: Seq<u8>,
    key_b: Seq<u8>,
    recipient_b: Seq<u8>,
    freshness_b: Seq<u8>,
)
    requires
        key_a.len() == 32,
        key_b.len() == 32,
        recipient_a.len() == 32,
        recipient_b.len() == 32,
        binding_message(key_a, recipient_a, freshness_a) == binding_message(
            key_b,
            recipient_b,
            freshness_b,
        ),
    ensures
        key_a == key_b,
        recipient_a == recipient_b,
        freshness_a == freshness_b,
{
    let a = binding_message(key_a, recipient_a, freshness_a);
    let b = binding_message(key_b, recipient_b, freshness_b);
    assert(a.subrange(0, 32) =~= key_a);
    assert(b.subrange(0, 32) =~= key_b);
    assert(a.subrange(32, 64) =~= recipient_a);
    assert(b.subrange(32, 64) =~= recipient_b);
    assert(a.subrange(64, a.len() as int) =~= freshness_a);
    assert(b.subrange(64, b.len() as int) =~= freshness_b);
}

/// Handshake authentication: an offer that is not authentic ends the
/// handshake with `AuthenticationFailed`, whatever key it carries; and an
/// authentic offer whose key leaves the shared secret all zero ends it with
/// `InvalidPublicKey`.
pub proof fn handshake_rejects(
    local_secret: Seq<u8>,
    local_id: Seq<u8>,
    offer: OfferView,
    peer_identity: Seq<u8>,
)
    ensures
        !offer_is_authentic(offer, local_id, peer_identity) ==> handshake_outcome(
            local_secret,
            local_id,
            offer,
            peer_identity,
        ) == Err::<ChannelView, CryptoError>(CryptoError::AuthenticationFailed),
        offer_is_authentic(offer, local_id, peer_identity) && x25519_shared(
            local_secret,
            offer.ephemeral_public,
        ) == crate::bytes::zeros(32) ==> handshake_outcome(
            local_secret,
            local_id,
            offer,
            peer_identity,
        ) == Err::<ChannelView, CryptoError>(CryptoError::InvalidPublicKey),
        handshake_outcome(local_secret, local_id, offer, peer_identity) matches Ok(c) ==> c
            == ChannelView::established(c.key, c.role) && offer_is_authentic(
            offer,
            local_id,
            peer_identity,
        ),
{
}

/// The wire form of an offer: the 32-byte ephemeral public key, the 16-byte
/// freshness value, the 64-byte signature.
pub open spec fn offer_wire(offer: OfferView) -> Seq<u8> {
    offer.ephemeral_public + offer.freshness + offer.signature
}

/// Reading an offer off the wire. Anything but 112 bytes is no offer.
pub open spec fn parse_offer(wire: Seq<u8>) -> Option<OfferView> {
    if wire.len() != OFFER_LEN {
        None
    } else {
        Some(
            OfferView {
                ephemeral_public: wire.subrange(0, 32),
                freshness: wire.subrange(32, 48),
                signature: wire.subrange(48, 112),
            },
        )
    }
}

/// The view of a parsed offer.
pub open spec fn parsed_offer_view(parsed: Option<HandshakeOffer>) -> Option<OfferView> {
    match parsed {
        Some(offer) => Some(offer@),
        None => None,
    }
}

impl HandshakeOffer {
    /// Writes the offer in its wire form.
    pub fn to_bytes(&self) -> (wire: Vec<u8>)
        ensures
            wire@ == offer_wire(self@),
            wire@.len() == OFFER_LEN,
    {
        let signature = self.signature.to_bytes();
        let mut wire: Vec<u8> = Vec::new();
        wire.extend_from_slice(self.ephemeral_public.as_bytes().as_slice());
        wire.extend_from_slice(self.freshness.as_slice());
        wire.extend_from_slice(signature.as_slice());
        wire
    }

    /// Reads an offer from its wire form.
    pub fn from_bytes(wire: &[u8]) -> (parsed: Option<HandshakeOffer>)
        ensures
            parsed_offer_view(parsed) == parse_offer(wire@),
    {
        if wire.len() != OFFER_LEN {
            return None;
        }
        let ephemeral_public = X25519Public::from_slice(vstd::slice::slice_subrange(wire, 0, 32));
        let freshness = copy_exact::<16>(vstd::slice::slice_subrange(wire, 32, 48));
        let signature = Signature::from_slice(vstd::slice::slice_subrange(wire, 48, 112));
        match (ephemeral_public, freshness, signature) {
            (Some(ephemeral_public), Some(freshness), Some(signature)) => Some(
                HandshakeOffer { ephemeral_public, freshness, signature },
            ),
            _ => None,
        }
    }
}

/// The wire form loses nothing: an offer whose fields have their lengths is
/// read back as it was written.
pub proof fn offer_wire_roundtrip(offer: OfferView)
    requires
        offer.ephemeral_public.len() == 32,
        offer.freshness.len() == 16,
        offer.signature.len() == 64,
    ensures
        parse_offer(offer_wire(offer)) == Some(offer),
{
    let wire = offer_wire(offer);
    assert(wire.subrange(0, 32) =~= offer.ephemeral_public);
    assert(wire.subrange(32, 48) =~= offer.freshness);
    assert(wire.subrange(48, 112) =~= offer.signature);
}

/// Whatever parses is written back byte for byte.
pub proof fn parsed_offer_roundtrip(wire: Seq<u8>)
    requires
        parse_offer(wire) is Some,
    ensures
        offer_wire(parse_offer(wire)->Some_0) == wire,
{
    assert(wire.subrange(0, 32) + wire.subrange(32, 48) + wire.subrange(48, 112) =~= wire);
}

} // verus!
