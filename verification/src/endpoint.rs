//! Endpoints: the address values that name the local side and the peer, and
//! the socket-address records that the operating system takes for them.

use byteorder::{ByteOrder, LittleEndian};
use vstd::prelude::*;

verus! {

/// Protocol number of ICMP, which echo packets over IPv4 use.
pub const IPPROTO_ICMP: i32 = 1;

/// Protocol number of ICMPv6, which echo packets over IPv6 use.
pub const IPPROTO_ICMPV6: i32 = 58;

/// Length in bytes of the socket-address record of an IPv4 endpoint.
pub const SOCKADDR_IN_LEN: usize = 16;

/// Length in bytes of the socket-address record of an IPv6 endpoint.
pub const SOCKADDR_IN6_LEN: usize = 28;

/// The two address families a transport can be opened for.
#[derive(Debug, Clone, Copy, PartialEq, Eq, Structural)]
pub enum Family {
    V4,
    V6,
}

impl Family {
    /// The protocol number a raw socket of this family is opened with.
    pub open spec fn spec_protocol_number(self) -> i32 {
        match self {
            Family::V4 => IPPROTO_ICMP,
            Family::V6 => IPPROTO_ICMPV6,
        }
    }

    /// The length of the socket-address record of this family.
    pub open spec fn spec_sockaddr_len(self) -> usize {
        match self {
            Family::V4 => SOCKADDR_IN_LEN,
            Family::V6 => SOCKADDR_IN6_LEN,
        }
    }

    /// The number of octets in an address of this family.
    pub open spec fn octet_count(self) -> nat {
        match self {
            Family::V4 => 4,
            Family::V6 => 16,
        }
    }

    /// The protocol number a raw socket of this family is opened with.
    #[verifier::when_used_as_spec(spec_protocol_number)]
    pub fn protocol_number(self) -> (number: i32)
        ensures
            number == self.spec_protocol_number(),
    {
        match self {
            Family::V4 => IPPROTO_ICMP,
            Family::V6 => IPPROTO_ICMPV6,
        }
    }

    /// The length of the socket-address record of this family.
    #[verifier::when_used_as_spec(spec_sockaddr_len)]
    pub fn sockaddr_len(self) -> (len: usize)
        ensures
            len == self.spec_sockaddr_len(),
    {
        match self {
            Family::V4 => SOCKADDR_IN_LEN,
            Family::V6 => SOCKADDR_IN6_LEN,
        }
    }
}

/// An IP address as its octets in network order.
#[derive(Debug, Clone, Copy, PartialEq, Eq)]
pub enum IpAddress {
    V4([u8; 4]),
    V6([u8; 16]),
}

/// The mathematical value of an address: its family and its octets.
pub struct AddressView {
    pub family: Family,
    pub octets: Seq<u8>,
}

impl View for IpAddress {
    type V = AddressView;

    open spec fn view(&self) -> AddressView {
        match *self {
            IpAddress::V4(octets) => AddressView { family: Family::V4, octets: octets@ },
            IpAddress::V6(octets) => AddressView { family: Family::V6, octets: octets@ },
        }
    }
}

impl AddressView {
    /// An address has as many octets as its family asks for.
    pub open spec fn well_formed(self) -> bool {
        self.octets.len() == self.family.octet_count()
    }
}

/// Whether the first `count` octets of two arrays agree.
fn octets_agree<const N: usize>(left: &[u8; N], right: &[u8; N]) -> (same: bool)
    ensures
        same == (left@ == right@),
{
    let mut i: usize = 0;
    while i < N
        invariant
            i <= N,
            left@.len() == N,
            right@.len() == N,
            forall|j: int| 0 <= j < i ==> left@[j] == right@[j],
        decreases N - i,
    {
        if left[i] != right[i] {
            return false;
        }
        i += 1;
    }
    proof {
        assert(left@ =~= right@);
    }
    true
}

impl IpAddress {
    /// The family of the address.
    pub fn family(&self) -> (family: Family)
        ensures
            family == self@.family,
    {
        match self {
            IpAddress::V4(_) => Family::V4,
            IpAddress::V6(_) => Family::V6,
        }
    }

    /// Whether two addresses are the same: same family, same octets.
    pub fn same_as(&self, other: &IpAddress) -> (same: bool)
        ensures
            same == (self@ == other@),
    {
        match (self, other) {
            (IpAddress::V4(left), IpAddress::V4(right)) => octets_agree(left, right),
            (IpAddress::V6(left), IpAddress::V6(right)) => octets_agree(left, right),
            _ => false,
        }
    }

    /// The address values are well formed by construction.
    pub proof fn lemma_well_formed(self)
        ensures
            self@.well_formed(),
    {
    }
}

/// The 32-bit value whose little-endian bytes are `octets`.
pub open spec fn le32(octets: Seq<u8>) -> u32
    recommends
        octets.len() == 4,
{
    (octets[0] as int + octets[1] as int * 0x100 + octets[2] as int * 0x1_0000 + octets[3] as int
        * 0x100_0000) as u32
}

/// The four little-endian bytes of `word`.
pub open spec fn le32_bytes(word: u32) -> Seq<u8> {
    seq![
        (word % 256) as u8,
        (word / 0x100 % 256) as u8,
        (word / 0x1_0000 % 256) as u8,
        (word / 0x100_0000) as u8,
    ]
}

/// Writing a word that was read from four octets gives the octets back.
pub proof fn lemma_le32_bytes_of_read(octets: Seq<u8>)
    requires
        octets.len() == 4,
    ensures
        le32_bytes(le32(octets)) == octets,
{
    let a = octets[0] as u32;
    let b = octets[1] as u32;
    let c = octets[2] as u32;
    let d = octets[3] as u32;
    let word = le32(octets);
    assert(word % 256 == a && word / 0x100 % 256 == b && word / 0x1_0000 % 256 == c && word
        / 0x100_0000 == d) by (bit_vector)
        requires
            a < 256 && b < 256 && c < 256 && d < 256,
            word == a + b * 0x100 + c * 0x1_0000 + d * 0x100_0000,
    ;
    assert(le32_bytes(word) =~= octets);
}

/// Reading the bytes that were written for a word gives the word back.
pub proof fn lemma_le32_read_of_bytes(word: u32)
    ensures
        le32(le32_bytes(word)) == word,
{
    let a = word % 256;
    let b = word / 0x100 % 256;
    let c = word / 0x1_0000 % 256;
    let d = word / 0x100_0000;
    assert(word == a + b * 0x100 + c * 0x1_0000 + d * 0x100_0000 && a < 256 && b < 256 && c < 256
        && d < 256) by (bit_vector)
        requires
            a == word % 256,
            b == word / 0x100 % 256,
            c == word / 0x1_0000 % 256,
            d == word / 0x100_0000,
    ;
}

/// `byteorder::LittleEndian::read_u32` on four octets: the result is the
/// word that has them as its little-endian bytes, first octet least
/// significant.
#[verifier::external_body]
fn read_u32_le(octets: &[u8; 4]) -> (word: u32)
    ensures
        word == le32(octets@),
{
    LittleEndian::read_u32(octets)
}

/// `byteorder::LittleEndian::write_u32` into four octets: they are the
/// little-endian bytes of the word, least significant first.
#[verifier::external_body]
fn write_u32_le(word: u32) -> (octets: [u8; 4])
    ensures
        octets@ == le32_bytes(word),
{
    let mut octets = [0u8; 4];
    LittleEndian::write_u32(&mut octets, word);
    octets
}

/// The socket-address record of an endpoint, field by field. For IPv4 the
/// address is one word, read from the octets least significant first, so
/// that on a little-endian host its bytes in memory are the octets in
/// network order.
#[derive(Debug, Clone, Copy, PartialEq, Eq)]
pub enum SockAddr {
    V4 { port: u16, s_addr: u32 },
    V6 { port: u16, flowinfo: u32, s6_addr: [u8; 16], scope_id: u32 },
}

/// The mathematical value of a [`SockAddr`].
pub enum SockAddrView {
    V4 { port: u16, s_addr: u32 },
    V6 { port: u16, flowinfo: u32, s6_addr: Seq<u8>, scope_id: u32 },
}

impl View for SockAddr {
    type V = SockAddrView;

    open spec fn view(&self) -> SockAddrView {
        match *self {
            SockAddr::V4 { port, s_addr } => SockAddrView::V4 { port, s_addr },
            SockAddr::V6 { port, flowinfo, s6_addr, scope_id } => SockAddrView::V6 {
                port,
                flowinfo,
                s6_addr: s6_addr@,
                scope_id,
            },
        }
    }
}

impl SockAddrView {
    /// The family of the record.
    pub open spec fn family(self) -> Family {
        match self {
            SockAddrView::V4 { .. } => Family::V4,
            SockAddrView::V6 { .. } => Family::V6,
        }
    }

    /// The address that the record names.
    pub open spec fn address(self) -> AddressView {
        match self {
            SockAddrView::V4 { s_addr, .. } => AddressView {
                family: Family::V4,
                octets: le32_bytes(s_addr),
            },
            SockAddrView::V6 { s6_addr, .. } => AddressView { family: Family::V6, octets: s6_addr },
        }
    }
}

impl AddressView {
    /// The record that names this address: port, flow information and scope
    /// are zero, as a raw socket wants them.
    pub open spec fn sockaddr(self) -> SockAddrView {
        match self.family {
            Family::V4 => SockAddrView::V4 { port: 0, s_addr: le32(self.octets) },
            Family::V6 => SockAddrView::V6 {
                port: 0,
                flowinfo: 0,
                s6_addr: self.octets,
                scope_id: 0,
            },
        }
    }
}

/// The record of an address names that address.
pub proof fn lemma_sockaddr_names_address(address: AddressView)
    requires
        address.well_formed(),
    ensures
        address.sockaddr().family() == address.family,
        address.sockaddr().address() == address,
{
    if address.family == Family::V4 {
        lemma_le32_bytes_of_read(address.octets);
    }
}

/// A record with no port, flow information or scope is the record of the
/// address it names.
pub proof fn lemma_address_names_sockaddr(record: SockAddrView)
    requires
        match record {
            SockAddrView::V4 { port, .. } => port == 0,
            SockAddrView::V6 { port, flowinfo, scope_id, .. } => port == 0 && flowinfo == 0
                && scope_id == 0,
        },
    ensures
        record.address().sockaddr() == record,
{
    if let SockAddrView::V4 { s_addr, .. } = record {
        lemma_le32_read_of_bytes(s_addr);
    }
}

impl SockAddr {
    /// The family of the record.
    pub fn family(&self) -> (family: Family)
        ensures
            family == self@.family(),
    {
        match self {
            SockAddr::V4 { .. } => Family::V4,
            SockAddr::V6 { .. } => Family::V6,
        }
    }

    /// The length that the operating system is told for the record.
    pub fn len(&self) -> (len: usize)
        ensures
            len == self@.family().spec_sockaddr_len(),
    {
        self.family().sockaddr_len()
    }

    /// The endpoint that the record names, as for the sender of a datagram.
    pub fn to_endpoint(&self) -> (endpoint: Endpoint)
        ensures
            endpoint@ == self@.address(),
    {
        match self {
            SockAddr::V4 { s_addr, .. } => Endpoint::new(IpAddress::V4(write_u32_le(*s_addr))),
            SockAddr::V6 { s6_addr, .. } => Endpoint::new(IpAddress::V6(*s6_addr)),
        }
    }
}

/// A transport-level peer or local descriptor: an address with its family
/// and the length of its socket-address record. It is made once and never
/// changes.
#[derive(Debug, Clone, Copy, PartialEq, Eq)]
pub struct Endpoint {
    family: Family,
    address: IpAddress,
    raw_len: usize,
}

impl View for Endpoint {
    type V = AddressView;

    closed spec fn view(&self) -> AddressView {
        self.address@
    }
}

impl Endpoint {
    #[verifier::type_invariant]
    spec fn consistent(self) -> bool {
        &&& self.family == self.address@.family
        &&& self.raw_len == self.family.spec_sockaddr_len()
    }

    /// The endpoint of `address`.
    pub fn new(address: IpAddress) -> (endpoint: Endpoint)
        ensures
            endpoint@ == address@,
    {
        let family = address.family();
        Endpoint { family, address, raw_len: family.sockaddr_len() }
    }

    /// The endpoint of the IPv4 address with the given octets.
    pub fn v4(octets: [u8; 4]) -> (endpoint: Endpoint)
        ensures
            endpoint@ == (AddressView { family: Family::V4, octets: octets@ }),
    {
        Endpoint::new(IpAddress::V4(octets))
    }

    /// The endpoint of the IPv6 address with the given octets.
    pub fn v6(octets: [u8; 16]) -> (endpoint: Endpoint)
        ensures
            endpoint@ == (AddressView { family: Family::V6, octets: octets@ }),
    {
        Endpoint::new(IpAddress::V6(octets))
    }

    /// The family of the endpoint.
    pub fn family(&self) -> (family: Family)
        ensures
            family == self@.family,
    {
        proof {
            use_type_invariant(self);
        }
        self.family
    }

    /// The address of the endpoint.
    pub fn address(&self) -> (address: IpAddress)
        ensures
            address@ == self@,
    {
        self.address
    }

    /// The length of the socket-address record of the endpoint.
    pub fn raw_len(&self) -> (len: usize)
        ensures
            len == self@.family.spec_sockaddr_len(),
    {
        proof {
            use_type_invariant(self);
        }
        self.raw_len
    }

    /// Whether two endpoints have the same address.
    pub fn same_address(&self, other: &Endpoint) -> (same: bool)
        ensures
            same == (self@ == other@),
    {
        self.address.same_as(&other.address)
    }

    /// The socket-address record to bind to or send to this endpoint.
    pub fn to_sockaddr(&self) -> (record: SockAddr)
        ensures
            record@ == self@.sockaddr(),
    {
        match self.address {
            IpAddress::V4(octets) => SockAddr::V4 { port: 0, s_addr: read_u32_le(&octets) },
            IpAddress::V6(octets) => SockAddr::V6 {
                port: 0,
                flowinfo: 0,
                s6_addr: octets,
                scope_id: 0,
            },
        }
    }

    /// An endpoint is found again in the record that was made for it.
    pub proof fn lemma_round_trip(self)
        ensures
            self@.sockaddr().address() == self@,
    {
        self.address.lemma_well_formed();
        lemma_sockaddr_names_address(self@);
    }
}

} // verus!
