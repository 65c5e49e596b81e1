//! The reply correlator: which inbound packets answer our own requests, and
//! when the request that a reply answers was sent.

use crate::endpoint::{AddressView, Endpoint};
use crate::packet::{IcmpMessage, IcmpMessageView, IcmpPacket, IcmpPacketView};
use crate::wire::{join16, join_halves};
use std::collections::HashMap;
use vstd::prelude::*;

verus! {

broadcast use vstd::std_specs::hash::group_hash_axioms;

/// A packet answers us when it is an echo reply, comes from the peer we
/// talk to, and carries our identifier. The sequence number plays no part.
pub open spec fn reply_matches(
    packet: IcmpPacketView,
    sender: AddressView,
    expected_peer: AddressView,
    local_identifier: u16,
) -> bool {
    &&& packet.message matches IcmpMessageView::EchoReply { identifier, .. }
    &&& identifier == local_identifier
    &&& sender == expected_peer
}

/// Tells whether `packet`, received from `sender_endpoint`, is a reply to a
/// request of ours. Whatever is not is to be dropped without an error.
pub fn is_match(
    packet: &IcmpPacket,
    sender_endpoint: &Endpoint,
    expected_peer: &Endpoint,
    local_identifier: u16,
) -> (accepted: bool)
    ensures
        accepted == reply_matches(packet@, sender_endpoint@, expected_peer@, local_identifier),
{
    match &packet.message {
        IcmpMessage::EchoReply { identifier, .. } => {
            *identifier == local_identifier && sender_endpoint.same_address(expected_peer)
        },
        _ => false,
    }
}

/// A reply from the peer with our identifier is accepted, whatever its
/// sequence number and payload.
pub proof fn lemma_reply_from_peer_is_accepted(
    packet: IcmpPacketView,
    peer: AddressView,
    local_identifier: u16,
)
    requires
        packet.message matches IcmpMessageView::EchoReply { identifier, .. } && identifier
            == local_identifier,
    ensures
        reply_matches(packet, peer, peer, local_identifier),
{
}

/// A reply is rejected when it comes from another sender, and when it
/// carries another identifier.
pub proof fn lemma_foreign_reply_is_rejected(
    packet: IcmpPacketView,
    sender: AddressView,
    expected_peer: AddressView,
    local_identifier: u16,
)
    requires
        packet.message matches IcmpMessageView::EchoReply { identifier, .. } && (sender
            != expected_peer || identifier != local_identifier),
    ensures
        !reply_matches(packet, sender, expected_peer, local_identifier),
{
}

/// Nothing but an echo reply is accepted, whoever sent it.
pub proof fn lemma_non_reply_is_rejected(
    packet: IcmpPacketView,
    sender: AddressView,
    expected_peer: AddressView,
    local_identifier: u16,
)
    requires
        !(packet.message is EchoReply),
    ensures
        !reply_matches(packet, sender, expected_peer, local_identifier),
{
}

/// A request that was sent and has not been answered yet. `sent_at` is the
/// reading of a clock that only the caller knows.
#[derive(Debug, Clone, Copy, PartialEq, Eq, Structural)]
pub struct PendingRequest {
    pub identifier: u16,
    pub sequence: u16,
    pub sent_at: u64,
}

/// The requests in flight, at most one for each pair of identifier and
/// sequence number.
pub struct PendingTable {
    sent: HashMap<u32, u64>,
}

impl View for PendingTable {
    type V = Map<(u16, u16), u64>;

    closed spec fn view(&self) -> Map<(u16, u16), u64> {
        Map::new(
            |key: (u16, u16)| self.sent@.contains_key(join16(key.0, key.1)),
            |key: (u16, u16)| self.sent@[join16(key.0, key.1)],
        )
    }
}

/// Different pairs of halves join into different words.
pub proof fn lemma_join16_is_injective(a: (u16, u16), b: (u16, u16))
    ensures
        join16(a.0, a.1) == join16(b.0, b.1) <==> a == b,
{
}

impl PendingTable {
    /// A table with nothing in flight.
    pub fn new() -> (table: PendingTable)
        ensures
            table@ == Map::<(u16, u16), u64>::empty(),
    {
        let table = PendingTable { sent: HashMap::new() };
        proof {
            assert(table@ =~= Map::<(u16, u16), u64>::empty());
        }
        table
    }

    /// Notes that `request` was sent. An older request with the same
    /// identifier and sequence number is superseded.
    pub fn record(&mut self, request: PendingRequest)
        ensures
            final(self)@ == old(self)@.insert(
                (request.identifier, request.sequence),
                request.sent_at,
            ),
    {
        let key = join_halves(request.identifier, request.sequence);
        self.sent.insert(key, request.sent_at);
        proof {
            assert forall|other: (u16, u16)|
                join16(other.0, other.1) == key <==> other == (
                    request.identifier,
                    request.sequence,
                ) by {
                lemma_join16_is_injective(other, (request.identifier, request.sequence));
            }
            assert(self@ =~= old(self)@.insert(
                (request.identifier, request.sequence),
                request.sent_at,
            ));
        }
    }

    /// Takes out the request that a reply with the given identifier and
    /// sequence number answers, if one is in flight.
    pub fn take(&mut self, identifier: u16, sequence: u16) -> (found: Option<PendingRequest>)
        ensures
            final(self)@ == old(self)@.remove((identifier, sequence)),
            found == if old(self)@.contains_key((identifier, sequence)) {
                Some(
                    PendingRequest {
                        identifier,
                        sequence,
                        sent_at: old(self)@[(identifier, sequence)],
                    },
                )
            } else {
                None
            },
    {
        let key = join_halves(identifier, sequence);
        let removed = self.sent.remove(&key);
        proof {
            assert forall|other: (u16, u16)|
                join16(other.0, other.1) == key <==> other == (identifier, sequence) by {
                lemma_join16_is_injective(other, (identifier, sequence));
            }
            assert(self@ =~= old(self)@.remove((identifier, sequence)));
        }
        match removed {
            Some(sent_at) => Some(PendingRequest { identifier, sequence, sent_at }),
            None => None,
        }
    }

    /// Whether a request with the given identifier and sequence number is
    /// in flight.
    pub fn is_in_flight(&self, identifier: u16, sequence: u16) -> (waiting: bool)
        ensures
            waiting == self@.contains_key((identifier, sequence)),
    {
        let key = join_halves(identifier, sequence);
        self.sent.contains_key(&key)
    }
}

/// The time from `sent_at` to `now` on the caller's clock, zero if the clock
/// went back.
pub open spec fn elapsed(sent_at: u64, now: u64) -> u64 {
    if now >= sent_at {
        (now - sent_at) as u64
    } else {
        0
    }
}

/// The time from `sent_at` to `now` on the caller's clock, zero if the clock
/// went back.
pub fn elapsed_since(sent_at: u64, now: u64) -> (elapsed: u64)
    ensures
        elapsed == self::elapsed(sent_at, now),
{
    if now >= sent_at {
        now - sent_at
    } else {
        0
    }
}

} // verus!
