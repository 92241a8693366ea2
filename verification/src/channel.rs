//! The secure channel: authenticated sealing and opening of payloads under
//! one session key, with a nonce counter for the sending direction and a
//! record of the peer's nonces already consumed.

use crate::aead::{bytes_view, checked_open, within_cipher_limit};
use crate::agreement::SessionKey;
use crate::bytes::{copy_exact, is_all_zero, zeros};
use crate::error::CryptoError;
use crate::nonce::{
    decode_nonce, encode_nonce, nonce_counter, nonce_for, nonce_injective, nonce_roundtrip,
    nonce_sender, Role, COUNTER_LIMIT,
};
use crate::primitives::{
    aead_open, aead_seal, chacha_open, chacha_seal, wipe_32, MAX_CIPHERTEXT_LEN,
    MAX_PLAINTEXT_LEN, NONCE_LEN, TAG_LEN,
};
use crate::replay::ReplayFilter;
use vstd::prelude::*;

verus! {

/// A sealed payload: the nonce it was sealed under and the ciphertext with
/// its tag. The associated data is not part of it; the receiver supplies its
/// own.
#[derive(Clone, Debug, PartialEq, Eq)]
pub struct SealedMessage {
    /// The 12-byte nonce.
    pub nonce: Vec<u8>,
    /// The ciphertext, ending in the 16-byte tag.
    pub ciphertext: Vec<u8>,
}

/// What a sealed message is to the specification: two byte strings.
pub struct SealedView {
    /// The nonce as it arrived, of whatever length.
    pub nonce: Seq<u8>,
    /// The ciphertext with its tag.
    pub ciphertext: Seq<u8>,
}

impl View for SealedMessage {
    type V = SealedView;

    open spec fn view(&self) -> SealedView {
        SealedView { nonce: self.nonce@, ciphertext: self.ciphertext@ }
    }
}

/// The state of a channel as the specification sees it.
pub struct ChannelView {
    /// The session key; all zero once the channel is closed.
    pub key: Seq<u8>,
    /// The half of the nonce space this side sends in.
    pub role: Role,
    /// The number of the next message to seal.
    pub next_send: nat,
    /// The peer's message numbers already opened.
    pub consumed: Set<nat>,
    /// Whether the channel was torn down.
    pub closed: bool,
}

impl ChannelView {
    /// What holds of every channel: the key has 32 bytes, the counter has not
    /// passed its limit, and a closed channel holds no key.
    pub open spec fn wf(self) -> bool {
        &&& self.key.len() == 32
        &&& self.next_send <= COUNTER_LIMIT
        &&& (self.closed ==> self.key == zeros(32))
    }

    /// The channel right after the handshake.
    pub open spec fn established(key: Seq<u8>, role: Role) -> ChannelView {
        ChannelView { key, role, next_send: 0, consumed: Set::empty(), closed: false }
    }

    /// The channel after teardown: closed, its key erased.
    pub open spec fn torn_down(self) -> ChannelView {
        ChannelView { key: zeros(32), closed: true, ..self }
    }

    /// Taking the next nonce of the sending direction. A closed channel
    /// gives none. A channel whose counter has run out gives none and is
    /// torn down. Otherwise the nonce is that of the counter, and the
    /// counter moves on by one.
    pub open spec fn reserve(self) -> (ChannelView, Result<Seq<u8>, CryptoError>) {
        if self.closed {
            (self, Err(CryptoError::ChannelClosed))
        } else if self.next_send >= COUNTER_LIMIT {
            (self.torn_down(), Err(CryptoError::NonceExhausted))
        } else {
            (
                ChannelView { next_send: self.next_send + 1, ..self },
                Ok(nonce_for(self.role, self.next_send)),
            )
        }
    }

    /// Sealing a payload: the next nonce, and the ciphertext of the payload
    /// under the session key, that nonce and the associated data.
    pub open spec fn seal(self, plaintext: Seq<u8>, aad: Seq<u8>) -> (
        ChannelView,
        Result<SealedView, CryptoError>,
    ) {
        let (next, nonce) = self.reserve();
        match nonce {
            Ok(nonce) => (
                next,
                Ok(SealedView { nonce, ciphertext: aead_seal(self.key, nonce, aad, plaintext) }),
            ),
            Err(e) => (next, Err(e)),
        }
    }

    /// Whether a nonce may be handed to the cipher at all: the channel is
    /// open, the nonce has 12 bytes, and it lies in the peer's half of the
    /// nonce space.
    pub open spec fn nonce_check(self, nonce: Seq<u8>) -> Result<(), CryptoError> {
        if self.closed {
            Err(CryptoError::ChannelClosed)
        } else if nonce.len() != 12 || nonce_sender(nonce) == self.role {
            Err(CryptoError::AuthenticationFailed)
        } else {
            Ok(())
        }
    }

    /// Opening a message once the cipher has answered with `opened`. A nonce
    /// that does not pass [`ChannelView::nonce_check`] fails as the check
    /// says; a message the cipher rejected fails with `AuthenticationFailed`;
    /// an authentic message whose number was consumed before fails with
    /// `ReplayDetected`.
    /// Only an authentic, new message is released, and its number recorded.
    /// Every failure leaves the channel as it was.
    pub open spec fn conclude(self, nonce: Seq<u8>, opened: Option<Seq<u8>>) -> (
        ChannelView,
        Result<Seq<u8>, CryptoError>,
    ) {
        match self.nonce_check(nonce) {
            Err(e) => (self, Err(e)),
            Ok(_) => match opened {
                None => (self, Err(CryptoError::AuthenticationFailed)),
                Some(plaintext) => if self.consumed.contains(nonce_counter(nonce)) {
                    (self, Err(CryptoError::ReplayDetected))
                } else {
                    (
                        ChannelView {
                            consumed: self.consumed.insert(nonce_counter(nonce)),
                            ..self
                        },
                        Ok(plaintext),
                    )
                },
            },
        }
    }

    /// Opening a message: [`ChannelView::conclude`] on what the cipher
    /// answers for the session key, the message's nonce, the associated data
    /// and the ciphertext. A ciphertext longer than the cipher decrypts is
    /// answered like one the cipher rejected.
    pub open spec fn open(self, sealed: SealedView, aad: Seq<u8>) -> (
        ChannelView,
        Result<Seq<u8>, CryptoError>,
    ) {
        self.conclude(sealed.nonce, checked_open(self.key, sealed.nonce, aad, sealed.ciphertext))
    }

    /// The channel after `n` more nonces were taken from it.
    pub open spec fn after_reserving(self, n: nat) -> ChannelView
        decreases n,
    {
        if n == 0 {
            self
        } else {
            self.after_reserving((n - 1) as nat).reserve().0
        }
    }

    /// Whether a message sealed by `sender` as its message number `number`
    /// is one this channel will accept: both hold the same key in opposite
    /// roles, this side is open and has not consumed that number.
    pub open spec fn awaits(self, sender_key: Seq<u8>, sender_role: Role, number: nat) -> bool {
        &&& !self.closed
        &&& self.key == sender_key
        &&& self.role == sender_role.other()
        &&& !self.consumed.contains(number)
    }
}

/// The views of the results that channel operations return.
pub open spec fn sealed_view(r: Result<SealedMessage, CryptoError>) -> Result<
    SealedView,
    CryptoError,
> {
    match r {
        Ok(sealed) => Ok(sealed@),
        Err(e) => Err(e),
    }
}

/// The view of a result that carries a nonce.
pub open spec fn nonce_view(r: Result<[u8; 12], CryptoError>) -> Result<Seq<u8>, CryptoError> {
    match r {
        Ok(nonce) => Ok(nonce@),
        Err(e) => Err(e),
    }
}

/// One end of an established channel. It is owned by one connection and
/// holds the only copy of the session key, which is overwritten with zeros
/// when the channel is closed or dropped.
pub struct SecureChannel {
    key: [u8; 32],
    role: Role,
    next_send: u128,
    consumed: ReplayFilter,
    closed: bool,
}

impl View for SecureChannel {
    type V = ChannelView;

    closed spec fn view(&self) -> ChannelView {
        ChannelView {
            key: self.key@,
            role: self.role,
            next_send: self.next_send as nat,
            consumed: self.consumed@,
            closed: self.closed,
        }
    }
}

impl Drop for SecureChannel {
    fn drop(&mut self)
        opens_invariants none
        no_unwind
    {
        wipe_32(&mut self.key);
    }
}

impl SecureChannel {
    /// Builds the channel that the handshake established.
    pub fn new(key: SessionKey, role: Role) -> (channel: SecureChannel)
        ensures
            channel@ == ChannelView::established(key@, role),
            channel@.wf(),
    {
        SecureChannel {
            key: key.to_bytes(),
            role,
            next_send: 0,
            consumed: ReplayFilter::new(),
            closed: false,
        }
    }

    /// Builds a channel whose sending direction has already carried
    /// `next_send` messages, or nothing where that is more than a direction
    /// can carry.
    pub fn resume(key: SessionKey, role: Role, next_send: u128) -> (channel: Option<SecureChannel>)
        ensures
            channel is Some <==> next_send <= COUNTER_LIMIT,
            channel matches Some(c) ==> c@ == (ChannelView {
                next_send: next_send as nat,
                ..ChannelView::established(key@, role)
            }) && c@.wf(),
    {
        if next_send > COUNTER_LIMIT {
            return None;
        }
        Some(
            SecureChannel {
                key: key.to_bytes(),
                role,
                next_send,
                consumed: ReplayFilter::new(),
                closed: false,
            },
        )
    }

    /// The half of the nonce space this side sends in.
    pub fn role(&self) -> (role: Role)
        ensures
            role == self@.role,
    {
        self.role
    }

    /// Whether the channel was torn down.
    pub fn is_closed(&self) -> (closed: bool)
        ensures
            closed == self@.closed,
    {
        self.closed
    }

    /// Whether the channel holds no key any more. A closed channel never
    /// does.
    pub fn is_erased(&self) -> (erased: bool)
        ensures
            erased == (self@.key == zeros(32)),
    {
        is_all_zero(&self.key)
    }

    /// The number of messages sealed so far.
    pub fn messages_sent(&self) -> (n: u128)
        ensures
            n == self@.next_send,
    {
        self.next_send
    }

    /// Tears the channel down and erases its key. Every later call to seal
    /// or open fails with `ChannelClosed`.
    pub fn close(&mut self)
        ensures
            final(self)@ == old(self)@.torn_down(),
            old(self)@.wf() ==> final(self)@.wf(),
    {
        wipe_32(&mut self.key);
        self.closed = true;
    }

    /// Takes the next nonce of the sending direction.
    pub fn next_nonce(&mut self) -> (nonce: Result<[u8; 12], CryptoError>)
        ensures
            final(self)@ == old(self)@.reserve().0,
            nonce_view(nonce) == old(self)@.reserve().1,
            old(self)@.wf() ==> final(self)@.wf(),
    {
        if self.closed {
            return Err(CryptoError::ChannelClosed);
        }
        if self.next_send >= COUNTER_LIMIT {
            self.close();
            return Err(CryptoError::NonceExhausted);
        }
        let nonce = encode_nonce(self.role, self.next_send);
        self.next_send = self.next_send + 1;
        Ok(nonce)
    }

    /// Seals a payload under the next nonce of the sending direction, with
    /// `associated_data` bound into the tag.
    ///
    /// The peer's end of the channel opens the result to `plaintext`, given
    /// the same associated data, as long as it is open and has not consumed
    /// this message's number.
    ///
    /// The cipher encrypts no payload longer than [`MAX_PLAINTEXT_LEN`];
    /// a caller with more to send seals it in parts.
    pub fn seal(&mut self, plaintext: &[u8], associated_data: &[u8]) -> (sealed: Result<
        SealedMessage,
        CryptoError,
    >)
        requires
            plaintext@.len() <= MAX_PLAINTEXT_LEN,
        ensures
            final(self)@ == old(self)@.seal(plaintext@, associated_data@).0,
            sealed_view(sealed) == old(self)@.seal(plaintext@, associated_data@).1,
            old(self)@.wf() ==> final(self)@.wf(),
            sealed matches Ok(m) ==> m@.nonce.len() == NONCE_LEN && m@.ciphertext.len()
                == plaintext@.len() + TAG_LEN,
            sealed matches Ok(m) ==> forall|peer: ChannelView| #[trigger]
                peer.awaits(old(self)@.key, old(self)@.role, old(self)@.next_send) ==> peer.open(
                    m@,
                    associated_data@,
                ).1 == Ok::<Seq<u8>, CryptoError>(plaintext@),
    {
        let ghost before = self@;
        let nonce = match self.next_nonce() {
            Ok(nonce) => nonce,
            Err(e) => {
                return Err(e);
            },
        };
        let ciphertext = chacha_seal(&self.key, &nonce, associated_data, plaintext);
        let mut nonce_bytes: Vec<u8> = Vec::new();
        nonce_bytes.extend_from_slice(nonce.as_slice());
        assert(nonce_bytes@ =~= nonce@);
        let sealed = SealedMessage { nonce: nonce_bytes, ciphertext };
        proof {
            nonce_roundtrip(before.role, before.next_send);
        }
        Ok(sealed)
    }

    /// Checks that a nonce may be handed to the cipher, and gives it back as
    /// an array.
    pub fn check_nonce(&self, nonce: &[u8]) -> (checked: Result<[u8; 12], CryptoError>)
        ensures
            match checked {
                Ok(array) => self@.nonce_check(nonce@) is Ok && array@ == nonce@,
                Err(e) => self@.nonce_check(nonce@) == Err::<(), CryptoError>(e),
            },
    {
        if self.closed {
            return Err(CryptoError::ChannelClosed);
        }
        match copy_exact::<12>(nonce) {
            None => Err(CryptoError::AuthenticationFailed),
            Some(array) => {
                let (sender, _) = decode_nonce(&array);
                match (sender, self.role) {
                    (Role::First, Role::First) => Err(CryptoError::AuthenticationFailed),
                    (Role::Second, Role::Second) => Err(CryptoError::AuthenticationFailed),
                    _ => Ok(array),
                }
            },
        }
    }

    /// Finishes opening a message once the cipher has answered with
    /// `opened`: releases the plaintext of an authentic, new message and
    /// records its number; fails otherwise and changes nothing.
    pub fn conclude_open(&mut self, nonce: &[u8], opened: Option<Vec<u8>>) -> (plaintext: Result<
        Vec<u8>,
        CryptoError,
    >)
        ensures
            final(self)@ == old(self)@.conclude(nonce@, option_view(opened)).0,
            bytes_view(plaintext) == old(self)@.conclude(nonce@, option_view(opened)).1,
            old(self)@.wf() ==> final(self)@.wf(),
    {
        let array = match self.check_nonce(nonce) {
            Ok(array) => array,
            Err(e) => {
                return Err(e);
            },
        };
        let bytes = match opened {
            Some(bytes) => bytes,
            None => {
                return Err(CryptoError::AuthenticationFailed);
            },
        };
        let (_, counter) = decode_nonce(&array);
        if self.consumed.contains(counter) {
            return Err(CryptoError::ReplayDetected);
        }
        self.consumed.insert(counter);
        Ok(bytes)
    }

    /// Verifies a message's tag over its ciphertext and `associated_data`,
    /// decrypts it, and records its nonce as consumed.
    ///
    /// A closed channel fails with `ChannelClosed`. A nonce of the wrong
    /// length or from this side's own half of the nonce space, and any
    /// message the cipher does not authenticate, fails with
    /// `AuthenticationFailed`, and so does a ciphertext longer than the
    /// cipher decrypts. An authentic message opened before fails with
    /// `ReplayDetected`. No failure changes the channel or releases any
    /// plaintext.
    ///
    /// A plaintext is released only for the ciphertext that sealing gives it
    /// under the session key, the message's nonce and this associated data.
    pub fn open(&mut self, sealed: &SealedMessage, associated_data: &[u8]) -> (plaintext: Result<
        Vec<u8>,
        CryptoError,
    >)
        ensures
            final(self)@ == old(self)@.open(sealed@, associated_data@).0,
            bytes_view(plaintext) == old(self)@.open(sealed@, associated_data@).1,
            old(self)@.wf() ==> final(self)@.wf(),
            plaintext matches Ok(p) ==> p@.len() <= MAX_PLAINTEXT_LEN && sealed@.ciphertext
                == aead_seal(old(self)@.key, sealed@.nonce, associated_data@, p@),
    {
        let opened = match self.check_nonce(sealed.nonce.as_slice()) {
            Ok(array) => if within_cipher_limit(sealed.ciphertext.as_slice()) {
                chacha_open(&self.key, &array, associated_data, sealed.ciphertext.as_slice())
            } else {
                None
            },
            Err(_) => None,
        };
        self.conclude_open(sealed.nonce.as_slice(), opened)
    }
}

/// The view of what the cipher answered.
pub open spec fn option_view(opened: Option<Vec<u8>>) -> Option<Seq<u8>> {
    match opened {
        Some(bytes) => Some(bytes@),
        None => None,
    }
}

/// Well-formedness is an invariant: every step of a channel leads from a
/// well-formed state to a well-formed state.
pub proof fn steps_preserve_wf(
    s: ChannelView,
    plaintext: Seq<u8>,
    aad: Seq<u8>,
    sealed: SealedView,
    opened: Option<Seq<u8>>,
)
    requires
        s.wf(),
    ensures
        s.torn_down().wf(),
        s.reserve().0.wf(),
        s.seal(plaintext, aad).0.wf(),
        s.conclude(sealed.nonce, opened).0.wf(),
        s.open(sealed, aad).0.wf(),
{
    assert(zeros(32).len() == 32);
}

/// A closed channel does nothing: every seal and every open fails with
/// `ChannelClosed` and leaves the channel as it was.
pub proof fn closed_channel_refuses(
    s: ChannelView,
    plaintext: Seq<u8>,
    aad: Seq<u8>,
    sealed: SealedView,
)
    requires
        s.closed,
    ensures
        s.seal(plaintext, aad) == (s, Err::<SealedView, CryptoError>(CryptoError::ChannelClosed)),
        s.open(sealed, aad) == (s, Err::<Seq<u8>, CryptoError>(CryptoError::ChannelClosed)),
{
}

/// Teardown is final: whatever is sealed or opened afterwards, the channel
/// stays closed with its key erased.
pub proof fn teardown_is_final(s: ChannelView, plaintext: Seq<u8>, aad: Seq<u8>, sealed: SealedView)
    ensures
        s.torn_down().closed,
        s.torn_down().key == zeros(32),
        s.torn_down().seal(plaintext, aad).0 == s.torn_down(),
        s.torn_down().open(sealed, aad).0 == s.torn_down(),
{
}

/// Replay rejection: a message that was opened once is refused with
/// `ReplayDetected` when it is submitted again.
pub proof fn replay_is_rejected(s: ChannelView, sealed: SealedView, aad: Seq<u8>)
    requires
        s.open(sealed, aad).1 is Ok,
    ensures
        s.open(sealed, aad).0.open(sealed, aad).1 == Err::<Seq<u8>, CryptoError>(
            CryptoError::ReplayDetected,
        ),
        s.open(sealed, aad).0.open(sealed, aad).0 == s.open(sealed, aad).0,
{
}

/// A message number is consumed at most once: after any message with a
/// given nonce was opened, no message with that nonce is ever released
/// again, whatever its ciphertext and associated data.
pub proof fn nonce_is_consumed_once(
    s: ChannelView,
    first: SealedView,
    first_aad: Seq<u8>,
    second: SealedView,
    second_aad: Seq<u8>,
)
    requires
        s.open(first, first_aad).1 is Ok,
        second.nonce == first.nonce,
    ensures
        s.open(first, first_aad).0.open(second, second_aad).1 is Err,
{
}

/// Whatever the cipher refuses, and whatever is too long for it, `open`
/// refuses with `AuthenticationFailed` and without any change to the channel.
pub proof fn unauthentic_is_rejected(s: ChannelView, sealed: SealedView, aad: Seq<u8>)
    requires
        !s.closed,
        aead_open(s.key, sealed.nonce, aad, sealed.ciphertext) is None || sealed.ciphertext.len()
            > MAX_CIPHERTEXT_LEN,
    ensures
        s.open(sealed, aad) == (s, Err::<Seq<u8>, CryptoError>(CryptoError::AuthenticationFailed)),
{
}

/// Whatever the cipher authenticates under a nonce the channel awaits,
/// `open` releases, and records the nonce's number as consumed.
pub proof fn authentic_is_released(
    s: ChannelView,
    sealed: SealedView,
    aad: Seq<u8>,
    plaintext: Seq<u8>,
)
    requires
        !s.closed,
        sealed.nonce.len() == 12,
        nonce_sender(sealed.nonce) == s.role.other(),
        !s.consumed.contains(nonce_counter(sealed.nonce)),
        sealed.ciphertext.len() <= MAX_CIPHERTEXT_LEN,
        aead_open(s.key, sealed.nonce, aad, sealed.ciphertext) == Some(plaintext),
    ensures
        s.open(sealed, aad).1 == Ok::<Seq<u8>, CryptoError>(plaintext),
        s.open(sealed, aad).0 == (ChannelView {
            consumed: s.consumed.insert(nonce_counter(sealed.nonce)),
            ..s
        }),
{
}

/// `open` releases nothing but what the cipher authenticated under the
/// session key, the message's own nonce and the receiver's associated data.
pub proof fn released_is_authentic(s: ChannelView, sealed: SealedView, aad: Seq<u8>)
    requires
        s.open(sealed, aad).1 is Ok,
    ensures
        aead_open(s.key, sealed.nonce, aad, sealed.ciphertext) == Some(
            s.open(sealed, aad).1->Ok_0,
        ),
        sealed.ciphertext.len() <= MAX_CIPHERTEXT_LEN,
        sealed.nonce.len() == 12,
        nonce_sender(sealed.nonce) == s.role.other(),
{
}

/// A malformed nonce, or one from the receiver's own half of the nonce
/// space, fails with `AuthenticationFailed` whatever the ciphertext holds.
pub proof fn foreign_nonce_is_rejected(s: ChannelView, sealed: SealedView, aad: Seq<u8>)
    requires
        !s.closed,
        sealed.nonce.len() != 12 || nonce_sender(sealed.nonce) == s.role,
    ensures
        s.open(sealed, aad) == (s, Err::<Seq<u8>, CryptoError>(CryptoError::AuthenticationFailed)),
{
}

/// Taking `n` nonces from an open channel that has room for them moves its
/// counter by `n` and changes nothing else.
pub proof fn reserving_advances(s: ChannelView, n: nat)
    requires
        !s.closed,
        s.next_send + n <= COUNTER_LIMIT,
    ensures
        s.after_reserving(n) == (ChannelView { next_send: s.next_send + n, ..s }),
    decreases n,
{
    if n > 0 {
        reserving_advances(s, (n - 1) as nat);
    }
}

/// Nonce uniqueness: successive seals on one channel never repeat a nonce.
/// The `i`-th and the `j`-th nonce taken from a channel differ whenever `i`
/// and `j` do and the counter has room for both.
pub proof fn successive_nonces_distinct(s: ChannelView, i: nat, j: nat)
    requires
        !s.closed,
        i != j,
        s.next_send + i < COUNTER_LIMIT,
        s.next_send + j < COUNTER_LIMIT,
    ensures
        s.after_reserving(i).reserve().1 is Ok,
        s.after_reserving(j).reserve().1 is Ok,
        s.after_reserving(i).reserve().1 != s.after_reserving(j).reserve().1,
{
    reserving_advances(s, i);
    reserving_advances(s, j);
    if nonce_for(s.role, s.next_send + i) == nonce_for(s.role, s.next_send + j) {
        nonce_injective(s.role, s.next_send + i, s.role, s.next_send + j);
    }
}

/// The two directions of a channel never share a nonce: whatever the two
/// ends have sent so far, the next nonces they take differ.
pub proof fn directions_never_collide(a: ChannelView, b: ChannelView)
    requires
        a.role == b.role.other(),
        a.reserve().1 is Ok,
        b.reserve().1 is Ok,
    ensures
        a.reserve().1 != b.reserve().1,
{
    if nonce_for(a.role, a.next_send) == nonce_for(b.role, b.next_send) {
        nonce_injective(a.role, a.next_send, b.role, b.next_send);
    }
}


/// The shortest sealed message on the wire: a nonce and a bare tag.
pub const MIN_SEALED_LEN: usize = 28;

/// The wire form of a sealed message: its 12-byte nonce, then the
/// ciphertext with its tag.
pub open spec fn sealed_wire(sealed: SealedView) -> Seq<u8> {
    sealed.nonce + sealed.ciphertext
}

/// Reading a sealed message off the wire: the first 12 bytes are the nonce,
/// the rest is the ciphertext. Fewer than 28 bytes are no message.
pub open spec fn parse_sealed(wire: Seq<u8>) -> Option<SealedView> {
    if wire.len() < MIN_SEALED_LEN {
        None
    } else {
        Some(
            SealedView {
                nonce: wire.subrange(0, 12),
                ciphertext: wire.subrange(12, wire.len() as int),
            },
        )
    }
}

/// The view of a parsed message.
pub open spec fn parsed_view(parsed: Option<SealedMessage>) -> Option<SealedView> {
    match parsed {
        Some(sealed) => Some(sealed@),
        None => None,
    }
}

impl SealedMessage {
    /// Writes the message in its wire form.
    pub fn to_bytes(&self) -> (wire: Vec<u8>)
        ensures
            wire@ == sealed_wire(self@),
    {
        let mut wire: Vec<u8> = Vec::new();
        wire.extend_from_slice(self.nonce.as_slice());
        wire.extend_from_slice(self.ciphertext.as_slice());
        wire
    }

    /// Reads a message from its wire form.
    pub fn from_bytes(wire: &[u8]) -> (parsed: Option<SealedMessage>)
        ensures
            parsed_view(parsed) == parse_sealed(wire@),
    {
        if wire.len() < MIN_SEALED_LEN {
            return None;
        }
        let mut nonce: Vec<u8> = Vec::new();
        nonce.extend_from_slice(vstd::slice::slice_subrange(wire, 0, 12));
        let mut ciphertext: Vec<u8> = Vec::new();
        ciphertext.extend_from_slice(vstd::slice::slice_subrange(wire, 12, wire.len()));
        assert(nonce@ =~= wire@.subrange(0, 12));
        assert(ciphertext@ =~= wire@.subrange(12, wire@.len() as int));
        Some(SealedMessage { nonce, ciphertext })
    }
}

/// The wire form loses nothing: a message with a 12-byte nonce and at least
/// a tag of ciphertext is read back as it was written.
pub proof fn sealed_wire_roundtrip(sealed: SealedView)
    requires
        sealed.nonce.len() == 12,
        sealed.ciphertext.len() >= 16,
    ensures
        parse_sealed(sealed_wire(sealed)) == Some(sealed),
{
    let wire = sealed_wire(sealed);
    assert(wire.subrange(0, 12) =~= sealed.nonce);
    assert(wire.subrange(12, wire.len() as int) =~= sealed.ciphertext);
}

/// Whatever parses is written back byte for byte.
pub proof fn parsed_wire_roundtrip(wire: Seq<u8>)
    requires
        parse_sealed(wire) is Some,
    ensures
        sealed_wire(parse_sealed(wire)->Some_0) == wire,
{
    assert(wire.subrange(0, 12) + wire.subrange(12, wire.len() as int) =~= wire);
}

} // verus!
