//! The bare eight-byte header of an ICMPv4 echo request.

use crate::checksum::{checksum_valid, internet_checksum, lemma_checksum_completes, with_be16};
use crate::packet::{IcmpMessageView, ECHO_CODE, ECHO_REQUEST_TYPE};
use crate::wire::{
    be16_bytes, be32_bytes, high_byte, join16, join_halves, lemma_join16_bytes, low_byte,
    split_be32,
};
use vstd::prelude::*;

verus! {

/// The fixed ICMPv4 header. `header` is the "rest of header" word: for an
/// echo message the identifier in its upper and the sequence number in its
/// lower 16 bits.
#[derive(Debug, Clone, Copy, PartialEq, Eq, Structural)]
pub struct ICMP4Header {
    pub icmp_type: u8,
    pub code: u8,
    pub checksum: u16,
    pub header: u32,
}

impl ICMP4Header {
    /// The eight bytes of the header on the wire, every field big-endian.
    pub open spec fn wire_bytes(self) -> Seq<u8> {
        seq![self.icmp_type, self.code] + be16_bytes(self.checksum) + be32_bytes(self.header)
    }

    /// The header with its checksum field cleared.
    pub open spec fn unsealed(self) -> ICMP4Header {
        ICMP4Header { checksum: 0, ..self }
    }

    /// Whether the checksum field holds the checksum of the header.
    pub open spec fn sealed(self) -> bool {
        self.checksum == internet_checksum(self.unsealed().wire_bytes())
    }

    /// The header of an echo request without payload, checksum filled in.
    pub fn echo_request(identifier: u16, sequence_number: u16) -> (request: ICMP4Header)
        ensures
            request.icmp_type == ECHO_REQUEST_TYPE,
            request.code == ECHO_CODE,
            request.header == join16(identifier, sequence_number),
            request.sealed(),
    {
        let header = join_halves(identifier, sequence_number);
        let mut request = ICMP4Header { icmp_type: 8, code: 0, checksum: 0, header };
        let checksum = ICMP4Header::calc_checksum(request.to_byte_array().as_slice());
        request.checksum = checksum;
        request
    }

    /// Lays the header out as it travels: type, code, checksum, rest of
    /// header.
    pub fn to_byte_array(&self) -> (buffer: [u8; 8])
        ensures
            buffer@ == self.wire_bytes(),
    {
        let rest = split_be32(self.header);
        let buffer: [u8; 8] = [
            self.icmp_type,
            self.code,
            high_byte(self.checksum),
            low_byte(self.checksum),
            rest[0],
            rest[1],
            rest[2],
            rest[3],
        ];
        proof {
            assert(buffer@ =~= self.wire_bytes());
        }
        buffer
    }

    /// The Internet checksum of `buffer`; a trailing odd byte counts as the
    /// high half of a last word.
    pub fn calc_checksum(buffer: &[u8]) -> (checksum: u16)
        ensures
            checksum == internet_checksum(buffer@),
    {
        crate::checksum::calc_checksum(buffer)
    }
}

/// A sealed header sums to all ones, checksum field included.
pub proof fn lemma_sealed_header_is_intact(header: ICMP4Header)
    requires
        header.sealed(),
    ensures
        checksum_valid(header.wire_bytes()),
{
    let cleared = header.unsealed().wire_bytes();
    lemma_checksum_completes(cleared, 2);
    assert(header.wire_bytes() =~= with_be16(cleared, 2, header.checksum));
}

/// The header that `echo_request` builds is the whole datagram of an echo
/// request with an empty payload.
pub proof fn lemma_echo_header_is_empty_request(
    header: ICMP4Header,
    identifier: u16,
    sequence_number: u16,
)
    requires
        header.icmp_type == ECHO_REQUEST_TYPE,
        header.code == ECHO_CODE,
        header.header == join16(identifier, sequence_number),
        header.sealed(),
    ensures
        header.wire_bytes() == (IcmpMessageView::EchoRequest {
            identifier,
            sequence: sequence_number,
            payload: Seq::<u8>::empty(),
        }).encoded(),
{
    let message = IcmpMessageView::EchoRequest {
        identifier,
        sequence: sequence_number,
        payload: Seq::<u8>::empty(),
    };
    lemma_join16_bytes(identifier, sequence_number);
    assert(header.unsealed().wire_bytes() =~= message.unsealed());
    assert(header.wire_bytes() =~= message.encoded());
}

} // verus!
