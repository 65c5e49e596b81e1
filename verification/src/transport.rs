//! The raw transport: what the tunnel asks of its socket and what it makes
//! of the answers.
//!
//! The socket itself is driven from outside. Before a call the transport
//! says what to hand to the operating system; after it, it takes the result
//! and says what that means for the tunnel.

use crate::endpoint::{AddressView, Endpoint, Family, SockAddr};
use crate::packet::{decode, decoded, DecodeError, IcmpPacket};
use vstd::prelude::*;
use vstd::slice::slice_subrange;

verus! {

/// The kinds of failure an operating-system call reports, as far as the
/// tunnel tells them apart.
#[derive(Debug, Clone, Copy, PartialEq, Eq, Structural)]
pub enum OsErrorKind {
    PermissionDenied,
    WouldBlock,
    TimedOut,
    Interrupted,
    AddrInUse,
    AddrNotAvailable,
    InvalidInput,
    Other,
}

/// What can go wrong at the transport.
#[derive(Debug, Clone, Copy, PartialEq, Eq, Structural)]
pub enum TransportError {
    /// The process lacks the privilege to open a raw socket.
    PermissionDenied,
    /// The socket could not be opened for any other reason.
    OpenFailed(OsErrorKind),
    /// The local address is not one of the socket's family, or the
    /// operating system would not bind to it.
    BindError(OsErrorKind),
    /// The call would have had to wait; nothing was sent or received.
    WouldBlock,
    /// The receive timeout ran out.
    TimedOut,
    /// Any other failure of a send or a receive.
    Io(OsErrorKind),
    /// A datagram arrived that is not a packet: malformed, or its checksum
    /// does not hold.
    Rejected(DecodeError),
}

/// How an error is to be treated.
#[derive(Debug, Clone, Copy, PartialEq, Eq, Structural)]
pub enum ErrorClass {
    /// Tell the operator and leave with a non-zero status; no retry.
    FatalStartup,
    /// Log it and go on; the next tick tries again by itself.
    TransientIO,
    /// Drop the datagram quietly; foreign traffic on a raw socket is normal.
    ProtocolReject,
}

impl TransportError {
    /// The class of the error.
    pub open spec fn spec_class(self) -> ErrorClass {
        match self {
            TransportError::PermissionDenied => ErrorClass::FatalStartup,
            TransportError::OpenFailed(_) => ErrorClass::FatalStartup,
            TransportError::BindError(_) => ErrorClass::FatalStartup,
            TransportError::WouldBlock => ErrorClass::TransientIO,
            TransportError::TimedOut => ErrorClass::TransientIO,
            TransportError::Io(_) => ErrorClass::TransientIO,
            TransportError::Rejected(_) => ErrorClass::ProtocolReject,
        }
    }

    /// The class of the error.
    #[verifier::when_used_as_spec(spec_class)]
    pub fn class(self) -> (class: ErrorClass)
        ensures
            class == self.spec_class(),
    {
        match self {
            TransportError::PermissionDenied => ErrorClass::FatalStartup,
            TransportError::OpenFailed(_) => ErrorClass::FatalStartup,
            TransportError::BindError(_) => ErrorClass::FatalStartup,
            TransportError::WouldBlock => ErrorClass::TransientIO,
            TransportError::TimedOut => ErrorClass::TransientIO,
            TransportError::Io(_) => ErrorClass::TransientIO,
            TransportError::Rejected(_) => ErrorClass::ProtocolReject,
        }
    }

    /// Whether the process has to give up on this error.
    pub fn is_fatal(self) -> (fatal: bool)
        ensures
            fatal == (self.spec_class() == ErrorClass::FatalStartup),
    {
        match self.class() {
            ErrorClass::FatalStartup => true,
            _ => false,
        }
    }
}

/// The error for a socket that could not be opened. Lack of privilege is
/// kept apart from every other cause.
pub open spec fn open_failure(kind: OsErrorKind) -> TransportError {
    match kind {
        OsErrorKind::PermissionDenied => TransportError::PermissionDenied,
        other => TransportError::OpenFailed(other),
    }
}

/// The error for a send or a receive that failed.
pub open spec fn transfer_failure(kind: OsErrorKind) -> TransportError {
    match kind {
        OsErrorKind::WouldBlock => TransportError::WouldBlock,
        OsErrorKind::TimedOut => TransportError::TimedOut,
        other => TransportError::Io(other),
    }
}

/// What a transport is: the socket handle it owns, the family it was opened
/// for, where it is bound, and how its calls wait.
pub struct TransportView {
    pub handle: i32,
    pub family: Family,
    pub local_endpoint: Option<AddressView>,
    pub read_timeout: Option<u64>,
    pub nonblocking: bool,
}

/// The raw transport of one address family. It owns one socket handle from
/// `open` until `close` takes it out again.
#[derive(Debug)]
pub struct RawTransport {
    handle: i32,
    family: Family,
    local_endpoint: Option<Endpoint>,
    read_timeout: Option<u64>,
    nonblocking: bool,
}

impl View for RawTransport {
    type V = TransportView;

    closed spec fn view(&self) -> TransportView {
        TransportView {
            handle: self.handle,
            family: self.family,
            local_endpoint: match self.local_endpoint {
                Some(endpoint) => Some(endpoint@),
                None => None,
            },
            read_timeout: self.read_timeout,
            nonblocking: self.nonblocking,
        }
    }
}

/// A datagram on its way out: the bytes and the record of where they go.
#[derive(Debug, Clone, PartialEq, Eq)]
pub struct Outbound {
    pub destination: SockAddr,
    pub datagram: Vec<u8>,
}

impl RawTransport {
    /// Takes the result of asking for a raw socket of `family`: the handle,
    /// or why there is none. The new transport is unbound, blocking, and
    /// waits without limit.
    pub fn open(family: Family, created: Result<i32, OsErrorKind>) -> (result: Result<
        RawTransport,
        TransportError,
    >)
        ensures
            match created {
                Ok(handle) => result matches Ok(transport) && transport@ == (TransportView {
                    handle,
                    family,
                    local_endpoint: None,
                    read_timeout: None,
                    nonblocking: false,
                }),
                Err(kind) => result matches Err(error) && error == open_failure(kind),
            },
    {
        match created {
            Ok(handle) => Ok(
                RawTransport {
                    handle,
                    family,
                    local_endpoint: None,
                    read_timeout: None,
                    nonblocking: false,
                },
            ),
            Err(OsErrorKind::PermissionDenied) => Err(TransportError::PermissionDenied),
            Err(kind) => Err(TransportError::OpenFailed(kind)),
        }
    }

    /// The socket handle.
    pub fn handle(&self) -> (handle: i32)
        ensures
            handle == self@.handle,
    {
        self.handle
    }

    /// The family the socket was opened for.
    pub fn family(&self) -> (family: Family)
        ensures
            family == self@.family,
    {
        self.family
    }

    /// The endpoint the socket is bound to, if it is bound.
    pub fn local_endpoint(&self) -> (local: Option<Endpoint>)
        ensures
            match local {
                Some(endpoint) => self@.local_endpoint == Some(endpoint@),
                None => self@.local_endpoint is None,
            },
    {
        self.local_endpoint
    }

    /// The longest a receive may wait; `None` for no limit.
    pub fn read_timeout(&self) -> (timeout: Option<u64>)
        ensures
            timeout == self@.read_timeout,
    {
        self.read_timeout
    }

    /// Whether calls return at once instead of waiting.
    pub fn is_nonblocking(&self) -> (nonblocking: bool)
        ensures
            nonblocking == self@.nonblocking,
    {
        self.nonblocking
    }

    /// The record to bind the socket to `local` with. An address of another
    /// family than the socket's is refused before the operating system sees
    /// it.
    pub fn bind_address(&self, local: &Endpoint) -> (result: Result<SockAddr, TransportError>)
        ensures
            match result {
                Ok(record) => local@.family == self@.family && record@ == local@.sockaddr(),
                Err(error) => local@.family != self@.family && error == TransportError::BindError(
                    OsErrorKind::InvalidInput,
                ),
            },
    {
        if family_eq(local.family(), self.family) {
            Ok(local.to_sockaddr())
        } else {
            Err(TransportError::BindError(OsErrorKind::InvalidInput))
        }
    }

    /// Takes the result of binding the socket to `local`. On success the
    /// transport is bound there; on failure it stays as it was.
    pub fn bind(&mut self, local: Endpoint, bound: Result<(), OsErrorKind>) -> (result: Result<
        (),
        TransportError,
    >)
        ensures
            match result {
                Ok(_) => {
                    &&& local@.family == old(self)@.family
                    &&& bound is Ok
                    &&& final(self)@ == (TransportView {
                        local_endpoint: Some(local@),
                        ..old(self)@
                    })
                },
                Err(error) => {
                    &&& final(self)@ == old(self)@
                    &&& error == TransportError::BindError(
                        if local@.family != old(self)@.family {
                            OsErrorKind::InvalidInput
                        } else {
                            bound->Err_0
                        },
                    )
                    &&& (local@.family != old(self)@.family || bound is Err)
                },
            },
    {
        if !family_eq(local.family(), self.family) {
            return Err(TransportError::BindError(OsErrorKind::InvalidInput));
        }
        match bound {
            Ok(_) => {
                self.local_endpoint = Some(local);
                Ok(())
            },
            Err(kind) => Err(TransportError::BindError(kind)),
        }
    }

    /// Sets the longest a receive may wait, in milliseconds; `None` lets it
    /// wait without limit.
    pub fn set_timeout(&mut self, timeout: Option<u64>)
        ensures
            final(self)@ == (TransportView { read_timeout: timeout, ..old(self)@ }),
    {
        self.read_timeout = timeout;
    }

    /// Switches between calls that wait and calls that report `WouldBlock`.
    pub fn set_nonblocking(&mut self, nonblocking: bool)
        ensures
            final(self)@ == (TransportView { nonblocking, ..old(self)@ }),
    {
        self.nonblocking = nonblocking;
    }

    /// Serialises `packet` for `endpoint`. An endpoint of another family
    /// than the socket's cannot be sent to.
    pub fn send_to(&self, endpoint: &Endpoint, packet: &IcmpPacket) -> (result: Result<
        Outbound,
        TransportError,
    >)
        ensures
            match result {
                Ok(outbound) => {
                    &&& endpoint@.family == self@.family
                    &&& outbound.destination@ == endpoint@.sockaddr()
                    &&& outbound.datagram@ == packet@.message.encoded()
                },
                Err(error) => endpoint@.family != self@.family && error == TransportError::Io(
                    OsErrorKind::InvalidInput,
                ),
            },
    {
        if family_eq(endpoint.family(), self.family) {
            Ok(Outbound { destination: endpoint.to_sockaddr(), datagram: packet.to_bytes() })
        } else {
            Err(TransportError::Io(OsErrorKind::InvalidInput))
        }
    }

    /// Takes the result of a receive: the bytes that arrived and the record
    /// of who sent them, or why nothing arrived. A datagram that does not
    /// decode is reported as rejected, apart from every fault of the
    /// transport itself.
    pub fn receive_from(&self, received: Result<(&[u8], SockAddr), OsErrorKind>) -> (result:
        Result<(IcmpPacket, Endpoint), TransportError>)
        ensures
            match received {
                Ok((bytes, sender)) => match decoded(bytes@) {
                    Ok(packet) => result matches Ok((got, from)) && got@ == packet && from@
                        == sender@.address(),
                    Err(error) => result matches Err(TransportError::Rejected(e)) && e == error,
                },
                Err(kind) => result matches Err(error) && error == transfer_failure(kind),
            },
    {
        match received {
            Ok((bytes, sender)) => match decode(bytes) {
                Ok(packet) => Ok((packet, sender.to_endpoint())),
                Err(error) => Err(TransportError::Rejected(error)),
            },
            Err(kind) => Err(transfer_error(kind)),
        }
    }

    /// Gives up the socket handle, to be closed. The transport is gone
    /// afterwards, so the handle is closed once.
    pub fn close(self) -> (handle: i32)
        ensures
            handle == self@.handle,
    {
        self.handle
    }
}

/// Whether two families are the same.
fn family_eq(left: Family, right: Family) -> (same: bool)
    ensures
        same == (left == right),
{
    match (left, right) {
        (Family::V4, Family::V4) => true,
        (Family::V6, Family::V6) => true,
        _ => false,
    }
}

/// The error for a send or a receive that failed with `kind`.
pub fn transfer_error(kind: OsErrorKind) -> (error: TransportError)
    ensures
        error == transfer_failure(kind),
{
    match kind {
        OsErrorKind::WouldBlock => TransportError::WouldBlock,
        OsErrorKind::TimedOut => TransportError::TimedOut,
        other => TransportError::Io(other),
    }
}

/// What became of a datagram of `expected` bytes that was handed to the
/// socket.
#[derive(Debug, Clone, Copy, PartialEq, Eq, Structural)]
pub enum SendOutcome {
    /// All of it went out.
    Complete,
    /// Only the first `sent` bytes went out; the rest is the caller's to
    /// send on a later tick.
    Partial { sent: usize, remaining: usize },
}

/// Takes the result of a send of `expected` bytes: the count that the
/// operating system reports, or why nothing was sent. A short count is
/// reported as such, never passed over.
pub fn sent(expected: usize, result: Result<usize, OsErrorKind>) -> (outcome: Result<
    SendOutcome,
    TransportError,
>)
    ensures
        match result {
            Ok(count) => outcome == Ok::<SendOutcome, TransportError>(
                if count >= expected {
                    SendOutcome::Complete
                } else {
                    SendOutcome::Partial { sent: count, remaining: (expected - count) as usize }
                },
            ),
            Err(kind) => outcome == Err::<SendOutcome, TransportError>(transfer_failure(kind)),
        },
{
    match result {
        Ok(count) => {
            if count >= expected {
                Ok(SendOutcome::Complete)
            } else {
                Ok(SendOutcome::Partial { sent: count, remaining: expected - count })
            }
        },
        Err(kind) => Err(transfer_error(kind)),
    }
}

/// Length of the shortest IPv4 header.
pub const IPV4_MIN_HEADER_LEN: usize = 20;

/// Whether `datagram` begins with an IPv4 header: its first byte says
/// version 4 and, in its low half, a header length in 32-bit words that is
/// at least 20 bytes and no more than the datagram holds.
pub open spec fn has_ipv4_header(datagram: Seq<u8>) -> bool {
    &&& datagram.len() >= IPV4_MIN_HEADER_LEN
    &&& datagram[0] / 16 == 4
    &&& IPV4_MIN_HEADER_LEN <= (datagram[0] % 16) * 4 <= datagram.len()
}

/// The ICMP message in a datagram that a raw socket of `family` hands over.
/// An IPv4 socket hands over the IP header too: the message is what follows
/// it, and there is none, that is an empty one, where no IPv4 header stands.
/// An IPv6 socket hands over the message alone.
pub open spec fn message_part(family: Family, datagram: Seq<u8>) -> Seq<u8> {
    match family {
        Family::V6 => datagram,
        Family::V4 => if has_ipv4_header(datagram) {
            datagram.skip((datagram[0] % 16) * 4)
        } else {
            Seq::empty()
        },
    }
}

/// Finds the ICMP message in a datagram that a raw socket of `family`
/// handed over.
pub fn strip_ip_header(family: Family, datagram: &[u8]) -> (message: &[u8])
    ensures
        message@ == message_part(family, datagram@),
{
    let len = datagram.len();
    let start: usize = match family {
        Family::V6 => 0,
        Family::V4 => {
            if len < IPV4_MIN_HEADER_LEN {
                len
            } else {
                let first = datagram[0];
                let header_len: usize = (first % 16) as usize * 4;
                if first / 16 == 4 && header_len >= IPV4_MIN_HEADER_LEN && header_len <= len {
                    header_len
                } else {
                    len
                }
            }
        },
    };
    let message = slice_subrange(datagram, start, len);
    proof {
        assert(message@ =~= message_part(family, datagram@));
    }
    message
}

/// The status flags of a descriptor with the non-blocking bit set or
/// cleared, every other flag as it was.
pub fn status_flags(flags: i32, nonblocking_bit: i32, nonblocking: bool) -> (updated: i32)
    ensures
        updated == if nonblocking {
            flags | nonblocking_bit
        } else {
            flags & !nonblocking_bit
        },
{
    if nonblocking {
        flags | nonblocking_bit
    } else {
        flags & !nonblocking_bit
    }
}

} // verus!
