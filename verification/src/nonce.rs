//! The 96-bit nonce space of a channel, split between its two directions.
//!
//! A nonce is a 96-bit number written as 12 bytes, most significant first.
//! The top bit names the sender; the other 95 bits are the sender's message
//! counter. The two peers of a channel hold different roles, so nothing one
//! of them sends can carry a nonce the other one sends.

use crate::bytes::{
    be_bytes, be_value, decode_be_12, encode_be_12, lemma_be_bytes_len, lemma_be_value_bound,
    lemma_bytes_of_value, lemma_capacity_12, lemma_value_of_bytes,
};
use vstd::prelude::*;

verus! {

/// Which half of the nonce space a peer sends in.
#[derive(Clone, Copy, Debug, PartialEq, Eq, Structural)]
pub enum Role {
    /// The peer whose ephemeral public key comes first.
    First,
    /// The peer whose ephemeral public key comes second.
    Second,
}

/// The number of messages one direction can carry: two to the power 95.
pub const COUNTER_LIMIT: u128 = 0x8000_0000_0000_0000_0000_0000;

impl Role {
    /// The role of the other peer.
    pub open spec fn other(self) -> Role {
        match self {
            Role::First => Role::Second,
            Role::Second => Role::First,
        }
    }

    /// The smallest nonce number of this role's half.
    pub open spec fn base(self) -> nat {
        match self {
            Role::First => 0,
            Role::Second => COUNTER_LIMIT as nat,
        }
    }

    /// Executable form of [`Role::other`].
    pub fn peer(&self) -> (r: Role)
        ensures
            r == self.other(),
    {
        match self {
            Role::First => Role::Second,
            Role::Second => Role::First,
        }
    }
}

/// The nonce a sender of role `role` uses for its message number `counter`.
pub open spec fn nonce_for(role: Role, counter: nat) -> Seq<u8> {
    be_bytes(role.base() + counter, 12)
}

/// The role that sent a 12-byte nonce.
pub open spec fn nonce_sender(nonce: Seq<u8>) -> Role {
    if be_value(nonce) < COUNTER_LIMIT {
        Role::First
    } else {
        Role::Second
    }
}

/// The sender's message number that a 12-byte nonce carries.
pub open spec fn nonce_counter(nonce: Seq<u8>) -> nat {
    (be_value(nonce) - nonce_sender(nonce).base()) as nat
}

/// A nonce names its sender and its counter: decoding undoes encoding.
pub proof fn nonce_roundtrip(role: Role, counter: nat)
    requires
        counter < COUNTER_LIMIT,
    ensures
        nonce_for(role, counter).len() == 12,
        nonce_sender(nonce_for(role, counter)) == role,
        nonce_counter(nonce_for(role, counter)) == counter,
{
    lemma_capacity_12();
    lemma_be_bytes_len(role.base() + counter, 12);
    lemma_value_of_bytes(role.base() + counter, 12);
}

/// Every 12-byte string is the nonce of exactly the sender and counter it
/// decodes to.
pub proof fn nonce_decoded(nonce: Seq<u8>)
    requires
        nonce.len() == 12,
    ensures
        nonce_counter(nonce) < COUNTER_LIMIT,
        nonce_for(nonce_sender(nonce), nonce_counter(nonce)) == nonce,
{
    lemma_capacity_12();
    lemma_be_value_bound(nonce);
    lemma_bytes_of_value(nonce);
}

/// Different senders or different counters never share a nonce.
pub proof fn nonce_injective(role_a: Role, counter_a: nat, role_b: Role, counter_b: nat)
    requires
        counter_a < COUNTER_LIMIT,
        counter_b < COUNTER_LIMIT,
        nonce_for(role_a, counter_a) == nonce_for(role_b, counter_b),
    ensures
        role_a == role_b,
        counter_a == counter_b,
{
    nonce_roundtrip(role_a, counter_a);
    nonce_roundtrip(role_b, counter_b);
}

/// Builds the nonce for a sender's message number.
pub fn encode_nonce(role: Role, counter: u128) -> (nonce: [u8; 12])
    requires
        counter < COUNTER_LIMIT,
    ensures
        nonce@ == nonce_for(role, counter as nat),
{
    let number: u128 = match role {
        Role::First => counter,
        Role::Second => COUNTER_LIMIT + counter,
    };
    encode_be_12(number)
}

/// Reads the sender and the message number out of a nonce.
pub fn decode_nonce(nonce: &[u8; 12]) -> (parts: (Role, u128))
    ensures
        parts.0 == nonce_sender(nonce@),
        parts.1 == nonce_counter(nonce@),
        parts.1 < COUNTER_LIMIT,
{
    let number = decode_be_12(nonce);
    if number < COUNTER_LIMIT {
        (Role::First, number)
    } else {
        (Role::Second, number - COUNTER_LIMIT)
    }
}

} // verus!
