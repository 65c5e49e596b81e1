//! The tunnel engine: what one tick of the loop decides.
//!
//! The loop reads input, sends, receives, writes output and sleeps; none of
//! that happens here. Here each step's result is taken and the next step is
//! decided: how a chunk of input is framed, which reply is written out, and
//! when the loop ends.

use crate::correlator::{elapsed, elapsed_since, is_match, reply_matches, PendingRequest, PendingTable};
use crate::endpoint::{AddressView, Endpoint};
use crate::os_notifier::{ShutdownState, Signal};
use crate::packet::{
    decoded, echo_request, lemma_decode_inverts_encode, IcmpMessage, IcmpMessageView, IcmpPacket,
    IcmpPacketView,
};
use crate::wire::copy_range;
use vstd::prelude::*;

verus! {

/// The most input that one request carries.
pub const CHUNK_SIZE: usize = 512;

/// Exit status of a graceful shutdown.
pub const EXIT_GRACEFUL: i32 = 0;

/// Exit status of a startup that failed and of a forced shutdown.
pub const EXIT_FAILURE: i32 = 1;

/// What the loop does with the tick that is about to begin.
#[derive(Debug, Clone, Copy, PartialEq, Eq, Structural)]
pub enum TickPlan {
    /// Run the tick and go on.
    Proceed,
    /// Run the tick to its end, then leave.
    FinishThenExit,
    /// Leave at once; nothing of the tick is run.
    ExitNow,
}

/// Why the process ends.
#[derive(Debug, Clone, Copy, PartialEq, Eq, Structural)]
pub enum ExitReason {
    /// Shutdown was asked for once, or the input came to its end.
    Graceful,
    /// Shutdown was asked for a second time.
    Forced,
    /// Startup failed: no privilege, no socket, no bind, or no terminal mode.
    FatalStartup,
}

/// The plan for a tick that begins in `state`.
pub open spec fn planned(state: ShutdownState) -> TickPlan {
    match state {
        ShutdownState::Running => TickPlan::Proceed,
        ShutdownState::StopRequested => TickPlan::FinishThenExit,
        ShutdownState::Killed => TickPlan::ExitNow,
    }
}

/// Whether and why the loop ends when a tick with `plan` is over;
/// `input_closed` tells that the input came to its end in it.
pub open spec fn concluded(plan: TickPlan, input_closed: bool) -> Option<ExitReason> {
    match plan {
        TickPlan::ExitNow => Some(ExitReason::Forced),
        TickPlan::FinishThenExit => Some(ExitReason::Graceful),
        TickPlan::Proceed => if input_closed {
            Some(ExitReason::Graceful)
        } else {
            None
        },
    }
}

/// The exit status for `reason`: zero for a graceful end and nothing else.
pub open spec fn status_of(reason: ExitReason) -> i32 {
    match reason {
        ExitReason::Graceful => EXIT_GRACEFUL,
        ExitReason::Forced => EXIT_FAILURE,
        ExitReason::FatalStartup => EXIT_FAILURE,
    }
}

/// Decides, at the top of a tick, what to do with it.
pub fn plan_tick(state: ShutdownState) -> (plan: TickPlan)
    ensures
        plan == planned(state),
{
    match state {
        ShutdownState::Running => TickPlan::Proceed,
        ShutdownState::StopRequested => TickPlan::FinishThenExit,
        ShutdownState::Killed => TickPlan::ExitNow,
    }
}

/// Decides, at the end of a tick, whether the loop goes on.
pub fn conclude_tick(plan: TickPlan, input_closed: bool) -> (exit: Option<ExitReason>)
    ensures
        exit == concluded(plan, input_closed),
{
    match plan {
        TickPlan::ExitNow => Some(ExitReason::Forced),
        TickPlan::FinishThenExit => Some(ExitReason::Graceful),
        TickPlan::Proceed => if input_closed {
            Some(ExitReason::Graceful)
        } else {
            None
        },
    }
}

/// The status the process leaves with.
pub fn exit_code(reason: ExitReason) -> (status: i32)
    ensures
        status == status_of(reason),
{
    match reason {
        ExitReason::Graceful => EXIT_GRACEFUL,
        ExitReason::Forced => EXIT_FAILURE,
        ExitReason::FatalStartup => EXIT_FAILURE,
    }
}

/// One request for shutdown lets the running loop finish its tick and leave
/// with status zero; a second one before that makes it leave at once, with
/// another status.
pub proof fn lemma_shutdown_escalation(first: Signal, second: Signal, input_closed: bool)
    requires
        first.spec_requests_shutdown(),
        second.spec_requests_shutdown(),
    ensures
        planned(ShutdownState::Running.after(first)) == TickPlan::FinishThenExit,
        concluded(TickPlan::FinishThenExit, input_closed) == Some(ExitReason::Graceful),
        status_of(ExitReason::Graceful) == 0,
        planned(ShutdownState::Running.after(first).after(second)) == TickPlan::ExitNow,
        concluded(TickPlan::ExitNow, input_closed) == Some(ExitReason::Forced),
        status_of(ExitReason::Forced) != 0,
{
}

/// The sequence number `count` requests after `start`: it goes through all
/// 16-bit values and starts over at zero.
pub open spec fn sequence_after(start: u16, count: nat) -> u16 {
    ((start as nat + count) % 0x1_0000) as u16
}

/// Sequence numbers step by one and wrap from the last value to zero; after
/// 65536 requests they are where they began, and no two of 65536 requests
/// in a row share one.
pub proof fn lemma_sequence_wraps(start: u16, first: nat, second: nat)
    ensures
        sequence_after(start, 0) == start,
        sequence_after(0xFFFF, 1) == 0,
        start < 0xFFFF ==> sequence_after(start, 1) == start + 1,
        sequence_after(sequence_after(start, first), second) == sequence_after(
            start,
            first + second,
        ),
        sequence_after(start, 0x1_0000) == start,
        first < second < first + 0x1_0000 ==> sequence_after(start, first) != sequence_after(
            start,
            second,
        ),
{
    let a = start as nat + first;
    let b = start as nat + second;
    assert((a % 0x1_0000 + second) % 0x1_0000 == (a + second) % 0x1_0000) by {
        vstd::arithmetic::div_mod::lemma_add_mod_noop(a as int, second as int, 0x1_0000);
        vstd::arithmetic::div_mod::lemma_add_mod_noop(
            (a % 0x1_0000) as int,
            second as int,
            0x1_0000,
        );
        vstd::arithmetic::div_mod::lemma_mod_twice(a as int, 0x1_0000);
    }
    if first < second < first + 0x1_0000 && a % 0x1_0000 == b % 0x1_0000 {
        assert(a == 0x1_0000 * (a / 0x1_0000) + a % 0x1_0000);
        assert(b == 0x1_0000 * (b / 0x1_0000) + b % 0x1_0000);
        assert(b - a == 0x1_0000 * (b / 0x1_0000 - a / 0x1_0000));
        assert(false);
    }
}

/// The number of chunks that `len` bytes of input are cut into.
pub open spec fn chunk_count(len: nat) -> nat {
    (len + CHUNK_SIZE - 1) as nat / (CHUNK_SIZE as nat)
}

/// Where the chunk with the given index ends in an input of `len` bytes.
pub open spec fn chunk_end(len: nat, index: int) -> int {
    if (index + 1) * CHUNK_SIZE <= len {
        (index + 1) * CHUNK_SIZE
    } else {
        len as int
    }
}

/// The chunk with the given index: full chunks first, the rest last.
pub open spec fn chunk_at(input: Seq<u8>, index: int) -> Seq<u8> {
    input.subrange(index * CHUNK_SIZE, chunk_end(input.len(), index))
}

/// The first `count` chunks of `input`, joined.
pub open spec fn chunks_joined(input: Seq<u8>, count: nat) -> Seq<u8>
    decreases count,
{
    if count == 0 {
        Seq::empty()
    } else {
        chunks_joined(input, (count - 1) as nat) + chunk_at(input, count - 1)
    }
}

/// The first `count` chunks of an input cover it up to the end of the last
/// of them.
pub proof fn lemma_chunks_cover_prefix(input: Seq<u8>, count: nat)
    requires
        count <= chunk_count(input.len()),
    ensures
        chunks_joined(input, count) == input.take(
            if count == 0 {
                0
            } else {
                chunk_end(input.len(), count - 1)
            },
        ),
    decreases count,
{
    if count == 0 {
        assert(chunks_joined(input, 0) =~= input.take(0));
    } else {
        lemma_chunks_cover_prefix(input, (count - 1) as nat);
        assert(chunks_joined(input, count) =~= input.take(chunk_end(input.len(), count - 1)));
    }
}

/// Cutting an input into chunks loses and reorders nothing: no chunk is
/// empty or longer than the chunk size, and joined in order the chunks are
/// the input.
pub proof fn lemma_chunks_reassemble(input: Seq<u8>)
    ensures
        chunks_joined(input, chunk_count(input.len())) == input,
        forall|index: int|
            0 <= index < chunk_count(input.len()) ==> 0 < (#[trigger] chunk_at(input, index)).len()
                <= CHUNK_SIZE,
{
    let count = chunk_count(input.len());
    lemma_chunks_cover_prefix(input, count);
    if count > 0 {
        assert(chunk_end(input.len(), count - 1) == input.len());
    }
    assert(input.take(input.len() as int) =~= input);
}

/// What an engine is: the identifier of its session, the sequence number of
/// its next request, the peer it talks to, and when each request in flight
/// was sent.
pub struct EngineView {
    pub identifier: u16,
    pub next_sequence: u16,
    pub peer: AddressView,
    pub pending: Map<(u16, u16), u64>,
}

/// A request on its way out, with its sequence number.
#[derive(Debug, Clone, PartialEq, Eq)]
pub struct Outgoing {
    pub sequence: u16,
    pub packet: IcmpPacket,
}

/// The mathematical value of an [`Outgoing`].
pub struct OutgoingView {
    pub sequence: u16,
    pub packet: IcmpPacketView,
}

impl View for Outgoing {
    type V = OutgoingView;

    open spec fn view(&self) -> OutgoingView {
        OutgoingView { sequence: self.sequence, packet: self.packet@ }
    }
}

/// What becomes of a packet that came in.
#[derive(Debug, Clone, PartialEq, Eq)]
pub enum Inbound {
    /// It answers a request of ours: write `payload` to the output as it
    /// is. `round_trip` is the time since the request with this sequence
    /// number was sent, if that request is still in flight.
    Deliver { payload: Vec<u8>, sequence: u16, round_trip: Option<u64> },
    /// It is not for us: drop it and say nothing.
    Discard,
}

/// The mathematical value of an [`Inbound`].
pub enum InboundView {
    Deliver { payload: Seq<u8>, sequence: u16, round_trip: Option<u64> },
    Discard,
}

impl View for Inbound {
    type V = InboundView;

    open spec fn view(&self) -> InboundView {
        match *self {
            Inbound::Deliver { payload, sequence, round_trip } => InboundView::Deliver {
                payload: payload@,
                sequence,
                round_trip,
            },
            Inbound::Discard => InboundView::Discard,
        }
    }
}

impl EngineView {
    /// The request that carries `chunk` now.
    pub open spec fn request(self, chunk: Seq<u8>) -> IcmpMessageView {
        IcmpMessageView::EchoRequest {
            identifier: self.identifier,
            sequence: self.next_sequence,
            payload: chunk,
        }
    }

    /// The reply of a peer that echoes the request for `chunk`.
    pub open spec fn echo_of(self, chunk: Seq<u8>) -> IcmpMessageView {
        IcmpMessageView::EchoReply {
            identifier: self.identifier,
            sequence: self.next_sequence,
            payload: chunk,
        }
    }

    /// The request that carries `chunk` now, as it goes out: the packet
    /// with its checksum, under the next sequence number.
    pub open spec fn outgoing(self, chunk: Seq<u8>) -> OutgoingView {
        OutgoingView {
            sequence: self.next_sequence,
            packet: IcmpPacketView {
                message: self.request(chunk),
                checksum: self.request(chunk).checksum(),
            },
        }
    }

    /// The engine after `count` requests were framed.
    pub open spec fn advanced(self, count: nat) -> EngineView {
        EngineView { next_sequence: sequence_after(self.next_sequence, count), ..self }
    }

    /// The engine after the request with `sequence` went out at `now`.
    pub open spec fn sent(self, sequence: u16, now: u64) -> EngineView {
        EngineView { pending: self.pending.insert((self.identifier, sequence), now), ..self }
    }

    /// The time since the request with `sequence` was sent, if it is in
    /// flight.
    pub open spec fn round_trip(self, sequence: u16, now: u64) -> Option<u64> {
        if self.pending.contains_key((self.identifier, sequence)) {
            Some(elapsed(self.pending[(self.identifier, sequence)], now))
        } else {
            None
        }
    }

    /// What becomes of `packet`, received from `sender` at `now`.
    pub open spec fn verdict(self, packet: IcmpPacketView, sender: AddressView, now: u64)
        -> InboundView {
        if reply_matches(packet, sender, self.peer, self.identifier) {
            InboundView::Deliver {
                payload: packet.message->EchoReply_payload,
                sequence: packet.message->EchoReply_sequence,
                round_trip: self.round_trip(packet.message->EchoReply_sequence, now),
            }
        } else {
            InboundView::Discard
        }
    }

    /// The engine after `packet` from `sender` was looked at: a reply takes
    /// the request it answers out of flight.
    pub open spec fn accepted(self, packet: IcmpPacketView, sender: AddressView) -> EngineView {
        if reply_matches(packet, sender, self.peer, self.identifier) {
            EngineView {
                pending: self.pending.remove(
                    (self.identifier, packet.message->EchoReply_sequence),
                ),
                ..self
            }
        } else {
            self
        }
    }
}

/// The tunnel engine.
pub struct TunnelEngine {
    identifier: u16,
    next_sequence: u16,
    peer: Endpoint,
    pending: PendingTable,
}

impl View for TunnelEngine {
    type V = EngineView;

    closed spec fn view(&self) -> EngineView {
        EngineView {
            identifier: self.identifier,
            next_sequence: self.next_sequence,
            peer: self.peer@,
            pending: self.pending@,
        }
    }
}

impl TunnelEngine {
    /// An engine that talks to `peer` under `identifier`. Its first request
    /// has sequence number zero.
    pub fn new(identifier: u16, peer: Endpoint) -> (engine: TunnelEngine)
        ensures
            engine@ == (EngineView {
                identifier,
                next_sequence: 0,
                peer: peer@,
                pending: Map::empty(),
            }),
    {
        TunnelEngine { identifier, next_sequence: 0, peer, pending: PendingTable::new() }
    }

    /// The identifier of the session.
    pub fn identifier(&self) -> (identifier: u16)
        ensures
            identifier == self@.identifier,
    {
        self.identifier
    }

    /// The sequence number that the next request gets.
    pub fn next_sequence(&self) -> (sequence: u16)
        ensures
            sequence == self@.next_sequence,
    {
        self.next_sequence
    }

    /// The peer that requests go to and replies must come from.
    pub fn peer(&self) -> (peer: Endpoint)
        ensures
            peer@ == self@.peer,
    {
        self.peer
    }

    /// Frames one chunk of input as the next echo request. No input, no
    /// request: an empty chunk gives nothing and uses no sequence number.
    pub fn frame(&mut self, chunk: &[u8]) -> (outgoing: Option<Outgoing>)
        ensures
            match outgoing {
                Some(request) => {
                    &&& chunk@.len() > 0
                    &&& request@ == old(self)@.outgoing(chunk@)
                    &&& final(self)@ == old(self)@.advanced(1)
                },
                None => chunk@.len() == 0 && final(self)@ == old(self)@,
            },
    {
        if chunk.len() == 0 {
            return None;
        }
        let sequence = self.next_sequence;
        let payload = copy_range(chunk, 0, chunk.len());
        proof {
            assert(payload@ =~= chunk@);
        }
        let packet = echo_request(self.identifier, sequence, payload);
        self.next_sequence = sequence.wrapping_add(1);
        Some(Outgoing { sequence, packet })
    }

    /// Frames all of `input`, chunk by chunk, as successive echo requests.
    pub fn frame_stream(&mut self, input: &[u8]) -> (outgoing: Vec<Outgoing>)
        ensures
            outgoing@.len() == chunk_count(input@.len()),
            forall|index: int|
                0 <= index < outgoing@.len() ==> (#[trigger] outgoing@[index])@ == old(
                    self,
                )@.advanced(index as nat).outgoing(chunk_at(input@, index)),
            final(self)@ == old(self)@.advanced(chunk_count(input@.len())),
    {
        let mut outgoing: Vec<Outgoing> = Vec::new();
        let mut start: usize = 0;
        let len = input.len();
        proof {
            lemma_sequence_wraps(self.next_sequence, 0, 0);
        }
        while start < len
            invariant
                len == input@.len(),
                start <= len,
                start == outgoing@.len() * CHUNK_SIZE || start == len,
                outgoing@.len() == chunk_count(start as nat),
                forall|index: int|
                    0 <= index < outgoing@.len() ==> (#[trigger] outgoing@[index])@ == old(
                        self,
                    )@.advanced(index as nat).outgoing(chunk_at(input@, index)),
                self@ == old(self)@.advanced(outgoing@.len()),
            decreases len - start,
        {
            let end = if len - start > CHUNK_SIZE {
                start + CHUNK_SIZE
            } else {
                len
            };
            let chunk = copy_range(input, start, end);
            let ghost index = outgoing@.len() as int;
            proof {
                assert(end == chunk_end(len as nat, index));
                assert(chunk@ =~= chunk_at(input@, index));
                lemma_sequence_wraps(old(self)@.next_sequence, index as nat, 1);
            }
            let framed = self.frame(chunk.as_slice());
            match framed {
                Some(request) => {
                    outgoing.push(request);
                },
                None => {},
            }
            start = end;
        }
        outgoing
    }

    /// Notes that the request with `sequence` went out at `now`, on the
    /// caller's clock.
    pub fn mark_sent(&mut self, sequence: u16, now: u64)
        ensures
            final(self)@ == old(self)@.sent(sequence, now),
    {
        self.pending.record(PendingRequest { identifier: self.identifier, sequence, sent_at: now });
    }

    /// Looks at a packet that was received from `sender` at `now`. The
    /// payload of a reply to one of our requests is to be written out as it
    /// is; anything else is to be dropped.
    pub fn accept(&mut self, packet: IcmpPacket, sender: &Endpoint, now: u64) -> (inbound: Inbound)
        ensures
            inbound@ == old(self)@.verdict(packet@, sender@, now),
            final(self)@ == old(self)@.accepted(packet@, sender@),
    {
        if !is_match(&packet, sender, &self.peer, self.identifier) {
            return Inbound::Discard;
        }
        match packet.message {
            IcmpMessage::EchoReply { identifier, sequence, payload } => {
                let round_trip = match self.pending.take(self.identifier, sequence) {
                    Some(request) => Some(elapsed_since(request.sent_at, now)),
                    None => None,
                };
                Inbound::Deliver { payload, sequence, round_trip }
            },
            _ => Inbound::Discard,
        }
    }
}

/// Framing requests only moves the sequence number on, by one for each
/// request, and after 65536 requests the engine is where it began.
pub proof fn lemma_requests_wrap(engine: EngineView, first: nat, second: nat)
    ensures
        engine.advanced(0) == engine,
        engine.advanced(first).advanced(second) == engine.advanced(first + second),
        engine.advanced(0x1_0000) == engine,
        first < second < first + 0x1_0000 ==> engine.advanced(first).next_sequence
            != engine.advanced(second).next_sequence,
{
    lemma_sequence_wraps(engine.next_sequence, first, second);
}

/// What goes into the tunnel comes out of it: when the peer echoes the
/// request that was framed for a chunk, the reply decodes, is accepted, and
/// delivers that chunk, byte for byte, under the sequence number of the
/// request.
pub proof fn lemma_echo_is_delivered(engine: EngineView, later: EngineView, chunk: Seq<u8>, now: u64)
    requires
        later.identifier == engine.identifier,
        later.peer == engine.peer,
    ensures
        decoded(engine.echo_of(chunk).encoded()) matches Ok(packet) && later.verdict(
            packet,
            engine.peer,
            now,
        ) matches InboundView::Deliver { payload, sequence, .. } && payload == chunk && sequence
            == engine.next_sequence,
{
    lemma_decode_inverts_encode(engine.echo_of(chunk));
}

} // verus!
