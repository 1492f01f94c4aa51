//! The TCP connection state machine and its sequence-space bookkeeping.
//!
//! A connection is driven by inbound segments only. Each segment either moves
//! the connection along the passive-open handshake, updates the sequence spaces
//! of an established connection, or is discarded without any effect.

use vstd::prelude::*;
use crate::seqnum::{
    advance, offset, precedes, precedes_or_equals, seq_add, seq_between, seq_le, seq_lt, within,
};
use crate::wire::{Ipv4Fields, TcpFields};

verus! {

/// The window this endpoint advertises: the payload of one full-sized frame,
/// since a segment is consumed before the next frame is read.
pub const RECEIVE_WINDOW: u16 = 1460;

/// The states of a connection. States for closing a connection may join them.
#[derive(Clone, Copy, Debug, PartialEq, Eq, Structural)]
#[non_exhaustive]
pub enum TcpState {
    Closed,
    Listen,
    SynRecv,
    Estab,
}

/// Send sequence space (RFC 793 S3.2 F4).
///
/// ```text
///            1         2          3          4
///       ----------|----------|----------|----------
///              SND.UNA    SND.NXT    SND.UNA
///                                   +SND.WND
///
/// 1 - old sequence numbers which have been acknowledged
/// 2 - sequence numbers of unacknowledged data
/// 3 - sequence numbers allowed for new data transmission
/// 4 - future sequence numbers which are not yet allowed
/// ```
#[derive(Clone, Copy, Debug, PartialEq, Eq, Structural)]
pub struct SendSequenceSpace {
    /// send unacknowledged
    pub una: u32,
    /// send next
    pub nxt: u32,
    /// send window, as the peer advertised it
    pub wnd: u16,
    /// whether an urgent pointer is present
    pub up: bool,
    /// segment sequence number used for last window update
    pub wl1: u32,
    /// segment acknowledgment number used for last window update
    pub wl2: u32,
}

/// Receive sequence space (RFC 793 S3.2 F5).
///
/// ```text
///                1          2          3
///            ----------|----------|----------
///                   RCV.NXT    RCV.NXT
///                             +RCV.WND
///
/// 1 - old sequence numbers which have been acknowledged
/// 2 - sequence numbers allowed for new reception
/// 3 - future sequence numbers which are not yet allowed
/// ```
#[derive(Clone, Copy, Debug, PartialEq, Eq, Structural)]
pub struct RecvSequenceSpace {
    /// receive next
    pub nxt: u32,
    /// receive window, as this endpoint advertises it
    pub wnd: u16,
    /// whether an urgent pointer is present
    pub up: bool,
    /// initial receive sequence number
    pub irs: u32,
}

/// One TCP connection: its state and both sequence spaces.
#[derive(Clone, Copy, Debug, PartialEq, Eq, Structural)]
pub struct Connection {
    pub state: TcpState,
    pub send: SendSequenceSpace,
    pub receive: RecvSequenceSpace,
}

/// A segment that the endpoint sends.
#[derive(Clone, Copy, Debug, PartialEq, Eq, Structural)]
pub struct Segment {
    pub source_ip: u32,
    pub destination_ip: u32,
    pub source_port: u16,
    pub destination_port: u16,
    pub sequence_number: u32,
    pub acknowledgment_number: u32,
    pub syn: bool,
    pub ack: bool,
    pub window_size: u16,
}

/// What one inbound segment does to a connection.
pub struct Step {
    /// The connection after the segment.
    pub next: Connection,
    /// The segment to send in answer, if any.
    pub reply: Option<Segment>,
}

impl SendSequenceSpace {
    /// The space of a connection that has sent nothing.
    pub open spec fn zeroed() -> SendSequenceSpace {
        SendSequenceSpace { una: 0, nxt: 0, wnd: 0, up: false, wl1: 0, wl2: 0 }
    }

    /// Nothing is acknowledged that was not sent: `una` is `nxt` or comes before it.
    pub open spec fn wf(self) -> bool {
        precedes_or_equals(self.una, self.nxt)
    }
}

impl RecvSequenceSpace {
    /// The space of a connection that has received nothing.
    pub open spec fn zeroed() -> RecvSequenceSpace {
        RecvSequenceSpace { nxt: 0, wnd: 0, up: false, irs: 0 }
    }
}

impl Connection {
    /// A connection on first contact: listening, with zeroed sequence spaces.
    pub open spec fn fresh() -> Connection {
        Connection {
            state: TcpState::Listen,
            send: SendSequenceSpace::zeroed(),
            receive: RecvSequenceSpace::zeroed(),
        }
    }

    /// The invariant of a connection. Its send space is well formed. While the
    /// handshake is pending, the SYN+ACK is all that is in flight and the SYN
    /// is all that was received. From the first SYN on, the window that the
    /// connection advertises is [`RECEIVE_WINDOW`].
    pub open spec fn wf(self) -> bool {
        &&& self.send.wf()
        &&& self.state == TcpState::SynRecv ==> {
            &&& self.send.nxt == advance(self.send.una, 1)
            &&& self.receive.nxt == advance(self.receive.irs, 1)
        }
        &&& self.state == TcpState::SynRecv || self.state == TcpState::Estab ==> self.receive.wnd
            == RECEIVE_WINDOW
    }
}

/// The SYN+ACK that answers the SYN `tcph` carried in a packet with header `iph`,
/// when `isn` is the initial sequence number chosen for the connection.
pub open spec fn syn_ack(iph: Ipv4Fields, tcph: TcpFields, isn: u32) -> Segment {
    Segment {
        source_ip: iph.destination,
        destination_ip: iph.source,
        source_port: tcph.destination_port,
        destination_port: tcph.source_port,
        sequence_number: isn,
        acknowledgment_number: advance(tcph.sequence_number, 1),
        syn: true,
        ack: true,
        window_size: RECEIVE_WINDOW,
    }
}

/// The connection that a SYN leaves behind: both sequence spaces are set from
/// the SYN and from `isn`, whatever they held before.
pub open spec fn after_syn(tcph: TcpFields, isn: u32) -> Connection {
    Connection {
        state: TcpState::SynRecv,
        send: SendSequenceSpace {
            una: isn,
            nxt: advance(isn, 1),
            wnd: tcph.window_size,
            up: false,
            wl1: tcph.sequence_number,
            wl2: tcph.acknowledgment_number,
        },
        receive: RecvSequenceSpace {
            nxt: advance(tcph.sequence_number, 1),
            wnd: RECEIVE_WINDOW,
            up: false,
            irs: tcph.sequence_number,
        },
    }
}

/// The initial sequence number that a connection takes when the SYN `tcph`
/// reaches it and `offered` is a newly chosen number. A connection that has
/// already answered this very SYN keeps the number it answered with, so that
/// every SYN+ACK sent for one SYN carries the same sequence number.
pub open spec fn chosen_isn(conn: Connection, tcph: TcpFields, offered: u32) -> u32 {
    if conn.state == TcpState::SynRecv && tcph.sequence_number == conn.receive.irs {
        conn.send.una
    } else {
        offered
    }
}

/// Whether `tcph` acknowledges the SYN+ACK of a connection with send space `send`.
pub open spec fn acknowledges_syn(send: SendSequenceSpace, tcph: TcpFields) -> bool {
    tcph.ack && tcph.acknowledgment_number == send.nxt
}

/// Whether an established connection accepts a segment with header `tcph` and
/// `payload_len` bytes of data: it is a plain ACK or data segment, it starts
/// at the next expected byte, it fits the advertised window, and it
/// acknowledges nothing outside of what is in flight.
pub open spec fn acceptable(conn: Connection, tcph: TcpFields, payload_len: int) -> bool {
    &&& tcph.ack
    &&& !tcph.syn
    &&& !tcph.fin
    &&& !tcph.rst
    &&& tcph.sequence_number == conn.receive.nxt
    &&& payload_len <= conn.receive.wnd
    &&& within(conn.send.una, tcph.acknowledgment_number, conn.send.nxt)
}

/// Whether the window that `tcph` advertises is newer than the one recorded
/// in `send`, so that a segment that was overtaken does not bring an old window back.
pub open spec fn updates_window(send: SendSequenceSpace, tcph: TcpFields) -> bool {
    ||| precedes(send.wl1, tcph.sequence_number)
    ||| (send.wl1 == tcph.sequence_number && precedes_or_equals(
        send.wl2,
        tcph.acknowledgment_number,
    ))
}

/// The send space of an established connection after an accepted segment.
pub open spec fn send_after(send: SendSequenceSpace, tcph: TcpFields) -> SendSequenceSpace {
    if updates_window(send, tcph) {
        SendSequenceSpace {
            una: tcph.acknowledgment_number,
            wnd: tcph.window_size,
            wl1: tcph.sequence_number,
            wl2: tcph.acknowledgment_number,
            ..send
        }
    } else {
        SendSequenceSpace { una: tcph.acknowledgment_number, ..send }
    }
}

/// The established connection after an accepted segment with `payload_len` bytes of data.
pub open spec fn after_data(conn: Connection, tcph: TcpFields, payload_len: int) -> Connection {
    Connection {
        state: TcpState::Estab,
        send: send_after(conn.send, tcph),
        receive: RecvSequenceSpace { nxt: advance(conn.receive.nxt, payload_len), ..conn.receive },
    }
}

/// The transition function of the state machine: what a segment with TCP header
/// `tcph` and `payload_len` bytes of data, carried in a packet with IPv4 header
/// `iph`, does to `conn`. `isn` is a newly chosen initial sequence number, which
/// the connection takes if the segment opens a handshake.
///
/// | state   | segment                              | effect                               | next    |
/// |---------|--------------------------------------|--------------------------------------|---------|
/// | Closed  | any                                  | none                                 | Closed  |
/// | Listen  | SYN                                  | sequence spaces set, SYN+ACK sent    | SynRecv |
/// | SynRecv | SYN                                  | as in Listen; the same SYN again is answered with the same SYN+ACK | SynRecv |
/// | SynRecv | ACK of the SYN+ACK                   | `send.una` moves to the acknowledgment | Estab |
/// | Estab   | an [`acceptable`] ACK or data segment | `receive.nxt`, `send.una` and the send window move | Estab |
///
/// Any other segment leaves the connection as it is and is not answered.
pub open spec fn step(
    conn: Connection,
    iph: Ipv4Fields,
    tcph: TcpFields,
    payload_len: int,
    isn: u32,
) -> Step {
    let discard = Step { next: conn, reply: None };
    let chosen = chosen_isn(conn, tcph, isn);
    let open = Step { next: after_syn(tcph, chosen), reply: Some(syn_ack(iph, tcph, chosen)) };
    match conn.state {
        TcpState::Closed => discard,
        TcpState::Listen => if tcph.syn {
            open
        } else {
            discard
        },
        TcpState::SynRecv => if tcph.syn {
            open
        } else if acknowledges_syn(conn.send, tcph) {
            Step {
                next: Connection {
                    state: TcpState::Estab,
                    send: SendSequenceSpace { una: tcph.acknowledgment_number, ..conn.send },
                    receive: conn.receive,
                },
                reply: None,
            }
        } else {
            discard
        },
        TcpState::Estab => if acceptable(conn, tcph, payload_len) {
            Step { next: after_data(conn, tcph, payload_len), reply: None }
        } else {
            discard
        },
    }
}

impl TcpState {
    /// Handles one inbound segment for the connection in this state, whose
    /// sequence spaces are `send` and `receive`, and returns the segment to
    /// send in answer, if any. `iph` and `tcph` are the decoded headers of the
    /// segment, `payload` is its data, and `isn` is a newly chosen initial
    /// sequence number for the case that the segment opens a handshake. State
    /// and sequence spaces change as [`step`] says.
    pub fn on_packet(
        &mut self,
        send: &mut SendSequenceSpace,
        receive: &mut RecvSequenceSpace,
        iph: &Ipv4Fields,
        tcph: &TcpFields,
        payload: &[u8],
        isn: u32,
    ) -> (reply: Option<Segment>)
        ensures
            ({
                let before = Connection {
                    state: *old(self),
                    send: *old(send),
                    receive: *old(receive),
                };
                let s = step(before, *iph, *tcph, payload@.len() as int, isn);
                &&& *final(self) == s.next.state
                &&& *final(send) == s.next.send
                &&& *final(receive) == s.next.receive
                &&& reply == s.reply
            }),
    {
        match *self {
            TcpState::Closed => {
                return None;
            },
            TcpState::Listen => {
                if !tcph.syn {
                    // only a SYN starts a connection
                    return None;
                }
            },
            TcpState::SynRecv => {
                if !tcph.syn {
                    if tcph.ack && tcph.acknowledgment_number == send.nxt {
                        send.una = tcph.acknowledgment_number;
                        *self = TcpState::Estab;
                    }
                    return None;
                }
            },
            TcpState::Estab => {
                let plain: bool = tcph.ack && !tcph.syn && !tcph.fin && !tcph.rst;
                let in_order: bool = tcph.sequence_number == receive.nxt && payload.len()
                    <= receive.wnd as usize;
                if plain && in_order && seq_between(
                    send.una,
                    tcph.acknowledgment_number,
                    send.nxt,
                ) {
                    let len: u32 = payload.len() as u32;
                    receive.nxt = seq_add(receive.nxt, len);
                    if seq_lt(send.wl1, tcph.sequence_number) || (send.wl1 == tcph.sequence_number
                        && seq_le(send.wl2, tcph.acknowledgment_number)) {
                        send.wnd = tcph.window_size;
                        send.wl1 = tcph.sequence_number;
                        send.wl2 = tcph.acknowledgment_number;
                    }
                    send.una = tcph.acknowledgment_number;
                }
                return None;
            },
        }
        // a SYN while no handshake has completed: start establishing a connection
        let replayed: bool = *self == TcpState::SynRecv && tcph.sequence_number == receive.irs;
        let isn: u32 = if replayed { send.una } else { isn };
        let next_expected: u32 = seq_add(tcph.sequence_number, 1);
        *send = SendSequenceSpace {
            una: isn,
            nxt: seq_add(isn, 1),
            wnd: tcph.window_size,
            up: false,
            wl1: tcph.sequence_number,
            wl2: tcph.acknowledgment_number,
        };
        *receive = RecvSequenceSpace {
            nxt: next_expected,
            wnd: RECEIVE_WINDOW,
            up: false,
            irs: tcph.sequence_number,
        };
        *self = TcpState::SynRecv;
        Some(
            Segment {
                source_ip: iph.destination,
                destination_ip: iph.source,
                source_port: tcph.destination_port,
                destination_port: tcph.source_port,
                sequence_number: isn,
                acknowledgment_number: next_expected,
                syn: true,
                ack: true,
                window_size: RECEIVE_WINDOW,
            },
        )
    }
}

impl Default for Connection {
    /// A connection on first contact: listening, with zeroed sequence spaces.
    fn default() -> (conn: Connection)
        ensures
            conn == Connection::fresh(),
    {
        Connection {
            state: TcpState::Listen,
            send: SendSequenceSpace { una: 0, nxt: 0, wnd: 0, up: false, wl1: 0, wl2: 0 },
            receive: RecvSequenceSpace { nxt: 0, wnd: 0, up: false, irs: 0 },
        }
    }
}

impl Connection {
    /// A connection on first contact: listening, with zeroed sequence spaces.
    pub fn new() -> (conn: Connection)
        ensures
            conn == Connection::fresh(),
            conn.wf(),
    {
        Connection::default()
    }

    /// Handles one inbound segment and returns the segment to send in answer,
    /// if any. The connection changes as [`step`] says.
    pub fn on_segment(
        &mut self,
        iph: &Ipv4Fields,
        tcph: &TcpFields,
        payload: &[u8],
        isn: u32,
    ) -> (reply: Option<Segment>)
        ensures
            *final(self) == step(*old(self), *iph, *tcph, payload@.len() as int, isn).next,
            reply == step(*old(self), *iph, *tcph, payload@.len() as int, isn).reply,
            old(self).wf() ==> final(self).wf(),
    {
        proof {
            if self.wf() {
                lemma_step_preserves_wf(*self, *iph, *tcph, payload@.len() as int, isn);
            }
        }
        self.state.on_packet(&mut self.send, &mut self.receive, iph, tcph, payload, isn)
    }
}

/// Every transition keeps the invariant of the connection. In particular
/// the send space stays well formed: what is acknowledged never runs ahead of
/// what was sent.
pub proof fn lemma_step_preserves_wf(
    conn: Connection,
    iph: Ipv4Fields,
    tcph: TcpFields,
    payload_len: int,
    isn: u32,
)
    requires
        conn.wf(),
    ensures
        step(conn, iph, tcph, payload_len, isn).next.wf(),
{
}

/// A SYN that reaches a connection whose handshake has not completed is
/// answered by one SYN+ACK that acknowledges the sequence number after the
/// SYN's and carries the connection's initial sequence number, and the
/// connection is in `SynRecv` with both sequence spaces set accordingly. The
/// initial sequence number is the newly chosen one, unless this very SYN was
/// answered before.
pub proof fn lemma_syn_is_answered(
    conn: Connection,
    iph: Ipv4Fields,
    tcph: TcpFields,
    payload_len: int,
    isn: u32,
)
    requires
        tcph.syn,
        conn.state == TcpState::Listen || conn.state == TcpState::SynRecv,
    ensures
        ({
            let s = step(conn, iph, tcph, payload_len, isn);
            &&& s.next.state == TcpState::SynRecv
            &&& s.reply matches Some(r)
            &&& r.syn
            &&& r.ack
            &&& r.acknowledgment_number == (tcph.sequence_number + 1) % 0x1_0000_0000
            &&& r.sequence_number == chosen_isn(conn, tcph, isn)
            &&& conn.state == TcpState::Listen ==> r.sequence_number == isn
            &&& r.window_size == s.next.receive.wnd
            &&& r.source_ip == iph.destination
            &&& r.destination_ip == iph.source
            &&& r.source_port == tcph.destination_port
            &&& r.destination_port == tcph.source_port
            &&& s.next.receive.irs == tcph.sequence_number
            &&& s.next.receive.nxt == r.acknowledgment_number
            &&& s.next.send.una == r.sequence_number
            &&& s.next.send.nxt == (r.sequence_number + 1) % 0x1_0000_0000
        }),
{
}

/// Handling the same SYN a second time before the handshake completes changes
/// nothing: the connection is as the first handling left it and the same
/// SYN+ACK is sent again, whatever initial sequence number is offered the
/// second time.
pub proof fn lemma_syn_replay_is_idempotent(
    conn: Connection,
    iph: Ipv4Fields,
    tcph: TcpFields,
    payload_len: int,
    first_isn: u32,
    second_isn: u32,
)
    requires
        tcph.syn,
        conn.state == TcpState::Listen || conn.state == TcpState::SynRecv,
    ensures
        ({
            let once = step(conn, iph, tcph, payload_len, first_isn);
            let twice = step(once.next, iph, tcph, payload_len, second_isn);
            twice == once
        }),
{
}

/// The handshake completes after any number of SYNs: once a SYN was answered,
/// the ACK of that SYN+ACK establishes the connection and is not answered,
/// and the established connection has nothing unacknowledged.
pub proof fn lemma_ack_completes_handshake(
    conn: Connection,
    iph: Ipv4Fields,
    syn: TcpFields,
    syn_len: int,
    isn: u32,
    ack: TcpFields,
    ack_len: int,
    other_isn: u32,
)
    requires
        syn.syn,
        conn.state == TcpState::Listen || conn.state == TcpState::SynRecv,
        ack.ack,
        !ack.syn,
        step(conn, iph, syn, syn_len, isn).reply matches Some(r) && ack.acknowledgment_number
            == advance(r.sequence_number, 1),
    ensures
        ({
            let answered = step(conn, iph, syn, syn_len, isn).next;
            let s = step(answered, iph, ack, ack_len, other_isn);
            &&& s.next.state == TcpState::Estab
            &&& s.reply is None
            &&& s.next.send.una == s.next.send.nxt
            &&& s.next.send.una == ack.acknowledgment_number
            &&& s.next.receive == answered.receive
        }),
{
}

/// A segment that a connection does not expect has no effect: a closed
/// connection expects none, a listening one only a SYN, one with a pending
/// handshake a SYN or the ACK of its SYN+ACK, an established one only an
/// acceptable segment.
pub proof fn lemma_unexpected_segment_is_discarded(
    conn: Connection,
    iph: Ipv4Fields,
    tcph: TcpFields,
    payload_len: int,
    isn: u32,
)
    requires
        match conn.state {
            TcpState::Closed => true,
            TcpState::Listen => !tcph.syn,
            TcpState::SynRecv => !tcph.syn && !acknowledges_syn(conn.send, tcph),
            TcpState::Estab => !acceptable(conn, tcph, payload_len),
        },
    ensures
        step(conn, iph, tcph, payload_len, isn) == (Step { next: conn, reply: None }),
{
}

/// An established connection never answers and never leaves `Estab`, and what
/// it has received only moves forward, by the length of the accepted data.
pub proof fn lemma_established_stays_established(
    conn: Connection,
    iph: Ipv4Fields,
    tcph: TcpFields,
    payload_len: int,
    isn: u32,
)
    requires
        conn.state == TcpState::Estab,
        0 <= payload_len,
    ensures
        ({
            let s = step(conn, iph, tcph, payload_len, isn);
            &&& s.next.state == TcpState::Estab
            &&& s.reply is None
            &&& s.next.send.nxt == conn.send.nxt
            &&& s.next.receive.irs == conn.receive.irs
            &&& s.next.receive.wnd == conn.receive.wnd
            &&& acceptable(conn, tcph, payload_len) ==> offset(conn.receive.nxt, s.next.receive.nxt)
                == payload_len
            &&& acceptable(conn, tcph, payload_len) ==> s.next.send.una
                == tcph.acknowledgment_number
        }),
{
}

} // verus!
