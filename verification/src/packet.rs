//! The ICMP wire format: messages, packets, and the codec between them and bytes.

use crate::checksum::{
    calc_checksum, checksum_valid, internet_checksum, lemma_checksum_completes,
    lemma_single_byte_corruption_detected, verify_checksum, with_be16,
};
use crate::wire::{
    append_bytes, be16, be16_bytes, copy_from, high_byte, low_byte, push_be16, read_be16,
};
use vstd::prelude::*;

verus! {

/// Length of the fixed ICMP header; no shorter datagram is a packet.
pub const HEADER_LEN: usize = 8;

/// Message type of an echo request.
pub const ECHO_REQUEST_TYPE: u8 = 8;

/// Message type of an echo reply.
pub const ECHO_REPLY_TYPE: u8 = 0;

/// Message code of both echo messages.
pub const ECHO_CODE: u8 = 0;

/// An ICMP message. Identifier and sequence exist only in the echo variants;
/// of any other message the type, the code and the bytes that follow the
/// checksum field are kept as they are.
#[derive(Debug, Clone, PartialEq, Eq)]
pub enum IcmpMessage {
    EchoRequest { identifier: u16, sequence: u16, payload: Vec<u8> },
    EchoReply { identifier: u16, sequence: u16, payload: Vec<u8> },
    Other { icmp_type: u8, code: u8, raw: Vec<u8> },
}

/// The mathematical value of an [`IcmpMessage`].
pub enum IcmpMessageView {
    EchoRequest { identifier: u16, sequence: u16, payload: Seq<u8> },
    EchoReply { identifier: u16, sequence: u16, payload: Seq<u8> },
    Other { icmp_type: u8, code: u8, raw: Seq<u8> },
}

impl View for IcmpMessage {
    type V = IcmpMessageView;

    open spec fn view(&self) -> IcmpMessageView {
        match *self {
            IcmpMessage::EchoRequest { identifier, sequence, payload } => {
                IcmpMessageView::EchoRequest { identifier, sequence, payload: payload@ }
            },
            IcmpMessage::EchoReply { identifier, sequence, payload } => {
                IcmpMessageView::EchoReply { identifier, sequence, payload: payload@ }
            },
            IcmpMessage::Other { icmp_type, code, raw } => {
                IcmpMessageView::Other { icmp_type, code, raw: raw@ }
            },
        }
    }
}

/// A message together with the checksum that its datagram carries.
#[derive(Debug, Clone, PartialEq, Eq)]
pub struct IcmpPacket {
    pub message: IcmpMessage,
    pub checksum: u16,
}

/// The mathematical value of an [`IcmpPacket`].
pub struct IcmpPacketView {
    pub message: IcmpMessageView,
    pub checksum: u16,
}

impl View for IcmpPacket {
    type V = IcmpPacketView;

    open spec fn view(&self) -> IcmpPacketView {
        IcmpPacketView { message: self.message@, checksum: self.checksum }
    }
}

/// Why a datagram is not a packet.
#[derive(Debug, Clone, Copy, PartialEq, Eq, Structural)]
pub enum DecodeError {
    /// The datagram is shorter than the fixed header.
    Truncated,
    /// The datagram does not sum to all ones: it is corrupt or foreign.
    ChecksumError,
}

impl IcmpMessageView {
    /// The type byte of the message.
    pub open spec fn icmp_type(self) -> u8 {
        match self {
            IcmpMessageView::EchoRequest { .. } => ECHO_REQUEST_TYPE,
            IcmpMessageView::EchoReply { .. } => ECHO_REPLY_TYPE,
            IcmpMessageView::Other { icmp_type, .. } => icmp_type,
        }
    }

    /// The code byte of the message.
    pub open spec fn code(self) -> u8 {
        match self {
            IcmpMessageView::EchoRequest { .. } => ECHO_CODE,
            IcmpMessageView::EchoReply { .. } => ECHO_CODE,
            IcmpMessageView::Other { code, .. } => code,
        }
    }

    /// The bytes that follow the checksum field.
    pub open spec fn body(self) -> Seq<u8> {
        match self {
            IcmpMessageView::EchoRequest { identifier, sequence, payload } => be16_bytes(
                identifier,
            ) + be16_bytes(sequence) + payload,
            IcmpMessageView::EchoReply { identifier, sequence, payload } => be16_bytes(identifier)
                + be16_bytes(sequence) + payload,
            IcmpMessageView::Other { raw, .. } => raw,
        }
    }

    /// The datagram of the message with a zero checksum field.
    pub open spec fn unsealed(self) -> Seq<u8> {
        seq![self.icmp_type(), self.code(), 0u8, 0u8] + self.body()
    }

    /// The checksum that the datagram of the message carries.
    pub open spec fn checksum(self) -> u16 {
        internet_checksum(self.unsealed())
    }

    /// The datagram of the message: type, code, checksum, then the body,
    /// all big-endian, the checksum computed over the whole with its own
    /// field taken as zero.
    pub open spec fn encoded(self) -> Seq<u8> {
        with_be16(self.unsealed(), 2, self.checksum())
    }

    /// Whether decoding can give this message. An echo message always can;
    /// another message must not pose as an echo message and must fill the
    /// fixed header.
    pub open spec fn well_formed(self) -> bool {
        match self {
            IcmpMessageView::Other { icmp_type, code, raw } => {
                &&& !is_echo_request(icmp_type, code)
                &&& !is_echo_reply(icmp_type, code)
                &&& raw.len() + 4 >= HEADER_LEN
            },
            _ => true,
        }
    }
}

/// Type and code of an echo request.
pub open spec fn is_echo_request(icmp_type: u8, code: u8) -> bool {
    icmp_type == ECHO_REQUEST_TYPE && code == ECHO_CODE
}

/// Type and code of an echo reply.
pub open spec fn is_echo_reply(icmp_type: u8, code: u8) -> bool {
    icmp_type == ECHO_REPLY_TYPE && code == ECHO_CODE
}

/// The message that the header fields and the rest of `bytes` spell out.
pub open spec fn parsed_message(bytes: Seq<u8>) -> IcmpMessageView
    recommends
        bytes.len() >= HEADER_LEN,
{
    if is_echo_request(bytes[0], bytes[1]) {
        IcmpMessageView::EchoRequest {
            identifier: be16(bytes[4], bytes[5]),
            sequence: be16(bytes[6], bytes[7]),
            payload: bytes.skip(8),
        }
    } else if is_echo_reply(bytes[0], bytes[1]) {
        IcmpMessageView::EchoReply {
            identifier: be16(bytes[4], bytes[5]),
            sequence: be16(bytes[6], bytes[7]),
            payload: bytes.skip(8),
        }
    } else {
        IcmpMessageView::Other { icmp_type: bytes[0], code: bytes[1], raw: bytes.skip(4) }
    }
}

/// What decoding `bytes` gives: a datagram shorter than the header is
/// truncated, one that does not sum to all ones fails the checksum, and any
/// other is the packet that its fields spell out.
pub open spec fn decoded(bytes: Seq<u8>) -> Result<IcmpPacketView, DecodeError> {
    if bytes.len() < HEADER_LEN {
        Err(DecodeError::Truncated)
    } else if !checksum_valid(bytes) {
        Err(DecodeError::ChecksumError)
    } else {
        Ok(IcmpPacketView { message: parsed_message(bytes), checksum: be16(bytes[2], bytes[3]) })
    }
}

/// The datagram of a message is its body behind a four-byte prefix.
pub proof fn lemma_encoded_len(message: IcmpMessageView)
    ensures
        message.encoded().len() == 4 + message.body().len(),
        message.well_formed() ==> message.encoded().len() >= HEADER_LEN,
{
}

/// The datagram of any message sums to all ones.
pub proof fn lemma_encoded_is_intact(message: IcmpMessageView)
    ensures
        checksum_valid(message.encoded()),
{
    lemma_checksum_completes(message.unsealed(), 2);
}

/// Decoding the datagram of a well-formed message succeeds and gives the
/// message back, field for field, with the checksum that was written.
pub proof fn lemma_decode_inverts_encode(message: IcmpMessageView)
    requires
        message.well_formed(),
    ensures
        decoded(message.encoded()) == Ok::<IcmpPacketView, DecodeError>(
            IcmpPacketView { message, checksum: message.checksum() },
        ),
{
    let bytes = message.encoded();
    let value = message.checksum();
    lemma_encoded_is_intact(message);
    assert(bytes[0] == message.icmp_type());
    assert(bytes[1] == message.code());
    assert(be16(bytes[2], bytes[3]) == value);
    match message {
        IcmpMessageView::EchoRequest { identifier, sequence, payload } => {
            assert(be16(bytes[4], bytes[5]) == identifier);
            assert(be16(bytes[6], bytes[7]) == sequence);
            assert(bytes.skip(8) =~= payload);
        },
        IcmpMessageView::EchoReply { identifier, sequence, payload } => {
            assert(be16(bytes[4], bytes[5]) == identifier);
            assert(be16(bytes[6], bytes[7]) == sequence);
            assert(bytes.skip(8) =~= payload);
        },
        IcmpMessageView::Other { icmp_type, code, raw } => {
            assert(bytes.skip(4) =~= raw);
        },
    }
}

/// Whatever single byte of the datagram of a message is changed, decoding
/// reports a checksum mismatch, provided the datagram fills the fixed header.
pub proof fn lemma_corruption_is_rejected(message: IcmpMessageView, index: int, byte: u8)
    requires
        message.encoded().len() >= HEADER_LEN,
        0 <= index < message.encoded().len(),
        byte != message.encoded()[index],
    ensures
        decoded(message.encoded().update(index, byte)) == Err::<IcmpPacketView, DecodeError>(
            DecodeError::ChecksumError,
        ),
{
    lemma_encoded_is_intact(message);
    lemma_single_byte_corruption_detected(message.encoded(), index, byte);
}

/// Serialises `message`, computing its checksum.
pub fn encode(message: &IcmpMessage) -> (bytes: Vec<u8>)
    ensures
        bytes@ == message@.encoded(),
{
    let mut bytes: Vec<u8> = Vec::new();
    match message {
        IcmpMessage::EchoRequest { identifier, sequence, payload } => {
            bytes.push(ECHO_REQUEST_TYPE);
            bytes.push(ECHO_CODE);
            bytes.push(0);
            bytes.push(0);
            push_be16(&mut bytes, *identifier);
            push_be16(&mut bytes, *sequence);
            append_bytes(&mut bytes, payload.as_slice());
        },
        IcmpMessage::EchoReply { identifier, sequence, payload } => {
            bytes.push(ECHO_REPLY_TYPE);
            bytes.push(ECHO_CODE);
            bytes.push(0);
            bytes.push(0);
            push_be16(&mut bytes, *identifier);
            push_be16(&mut bytes, *sequence);
            append_bytes(&mut bytes, payload.as_slice());
        },
        IcmpMessage::Other { icmp_type, code, raw } => {
            bytes.push(*icmp_type);
            bytes.push(*code);
            bytes.push(0);
            bytes.push(0);
            append_bytes(&mut bytes, raw.as_slice());
        },
    }
    proof {
        assert(bytes@ =~= message@.unsealed());
    }
    let checksum = calc_checksum(bytes.as_slice());
    bytes.set(2, high_byte(checksum));
    bytes.set(3, low_byte(checksum));
    bytes
}

/// Reads a packet out of `bytes`.
///
/// A checksum mismatch marks a corrupt or foreign datagram: the caller drops
/// it and goes on.
pub fn decode(bytes: &[u8]) -> (result: Result<IcmpPacket, DecodeError>)
    ensures
        match result {
            Ok(packet) => decoded(bytes@) == Ok::<IcmpPacketView, DecodeError>(packet@),
            Err(error) => decoded(bytes@) == Err::<IcmpPacketView, DecodeError>(error),
        },
{
    if bytes.len() < HEADER_LEN {
        return Err(DecodeError::Truncated);
    }
    if !verify_checksum(bytes) {
        return Err(DecodeError::ChecksumError);
    }
    let icmp_type = bytes[0];
    let code = bytes[1];
    let checksum = read_be16(bytes[2], bytes[3]);
    let message = if icmp_type == ECHO_REQUEST_TYPE && code == ECHO_CODE {
        IcmpMessage::EchoRequest {
            identifier: read_be16(bytes[4], bytes[5]),
            sequence: read_be16(bytes[6], bytes[7]),
            payload: copy_from(bytes, HEADER_LEN),
        }
    } else if icmp_type == ECHO_REPLY_TYPE && code == ECHO_CODE {
        IcmpMessage::EchoReply {
            identifier: read_be16(bytes[4], bytes[5]),
            sequence: read_be16(bytes[6], bytes[7]),
            payload: copy_from(bytes, HEADER_LEN),
        }
    } else {
        IcmpMessage::Other { icmp_type, code, raw: copy_from(bytes, 4) }
    };
    Ok(IcmpPacket { message, checksum })
}

/// Builds the packet of an echo request with the given fields.
pub fn echo_request(identifier: u16, sequence: u16, payload: Vec<u8>) -> (packet: IcmpPacket)
    ensures
        packet@.message == (IcmpMessageView::EchoRequest {
            identifier,
            sequence,
            payload: payload@,
        }),
        packet@.checksum == packet@.message.checksum(),
{
    IcmpPacket::new(IcmpMessage::EchoRequest { identifier, sequence, payload })
}

impl IcmpPacket {
    /// Wraps `message` with the checksum that its datagram carries.
    pub fn new(message: IcmpMessage) -> (packet: IcmpPacket)
        ensures
            packet@.message == message@,
            packet@.checksum == message@.checksum(),
    {
        let bytes = encode(&message);
        let checksum = read_be16(bytes[2], bytes[3]);
        IcmpPacket { message, checksum }
    }

    /// The datagram of the packet. The checksum is computed anew from the
    /// message; the stored one is not consulted.
    pub fn to_bytes(&self) -> (bytes: Vec<u8>)
        ensures
            bytes@ == self@.message.encoded(),
    {
        encode(&self.message)
    }
}

} // verus!
