//! The frame demultiplexer and the handling of one frame from end to end.
//!
//! A frame from the interface starts with four bytes, two of flags and two
//! that name the protocol of what follows. Only IPv4 packets that carry a
//! valid TCP segment reach a connection; every other frame is discarded and
//! leaves the endpoint as it was.

use vstd::prelude::*;
use crate::emit::{encode_segment, frame_bytes, frame_packet, packet_bytes};
use crate::isn::{initial_sequence_number, isn_for, IsnSecret};
use crate::quad::Quad;
use crate::table::{found_or_fresh, ConnectionTable};
use crate::tcp::{
    after_syn, lemma_syn_replay_is_idempotent, step, syn_ack, Connection, Segment, TcpState,
};
use crate::wire::{
    be16, decode_ipv4, decode_tcp, ipv4_decoded, tcp_decoded, DecodeError, Ipv4Fields, TcpFields,
    PROTOCOL_TCP,
};

verus! {

/// The length of the prefix that the interface puts before each packet.
pub const FRAME_PREFIX_LEN: usize = 4;

/// The protocol number by which the frame prefix announces an IPv4 packet.
pub const ETHERTYPE_IPV4: u16 = 0x0800;

/// What a frame holds, as far as the endpoint is concerned.
#[derive(Debug)]
pub enum Demuxed<'a> {
    /// The frame does not carry an IPv4 packet.
    NotIpv4,
    /// The frame announces an IPv4 packet that is not valid.
    BadIpv4(DecodeError),
    /// The frame carries a valid IPv4 packet of another protocol than TCP.
    NotTcp,
    /// The frame carries an IPv4 packet with a TCP segment that is not valid.
    BadTcp(DecodeError),
    /// The frame carries a valid TCP segment with the data `payload`.
    Segment { iph: Ipv4Fields, tcph: TcpFields, payload: &'a [u8] },
}

/// The mathematical content of a [`Demuxed`]: the same, with the data as a sequence.
pub enum Classified {
    /// No IPv4 packet.
    NotIpv4,
    /// An IPv4 packet that is not valid.
    BadIpv4(DecodeError),
    /// A valid IPv4 packet of another protocol than TCP.
    NotTcp,
    /// An IPv4 packet with a TCP segment that is not valid.
    BadTcp(DecodeError),
    /// A valid TCP segment with the data `payload`.
    Segment { iph: Ipv4Fields, tcph: TcpFields, payload: Seq<u8> },
}

impl<'a> View for Demuxed<'a> {
    type V = Classified;

    open spec fn view(&self) -> Classified {
        match *self {
            Demuxed::NotIpv4 => Classified::NotIpv4,
            Demuxed::BadIpv4(e) => Classified::BadIpv4(e),
            Demuxed::NotTcp => Classified::NotTcp,
            Demuxed::BadTcp(e) => Classified::BadTcp(e),
            Demuxed::Segment { iph, tcph, payload } => Classified::Segment {
                iph,
                tcph,
                payload: payload@,
            },
        }
    }
}

/// What the endpoint did with a frame.
#[derive(Debug)]
pub enum FrameOutcome {
    /// Discarded: not an IPv4 packet. This is expected traffic.
    NotIpv4,
    /// Discarded: the IPv4 packet is not valid.
    BadIpv4(DecodeError),
    /// Discarded: a valid IPv4 packet of another protocol than TCP.
    NotTcp,
    /// Discarded: the TCP segment is not valid.
    BadTcp(DecodeError),
    /// The segment was handed to the connection of `quad`. `reply` is the
    /// frame to send in answer, if the connection answers.
    Delivered { quad: Quad, reply: Option<Vec<u8>> },
}

/// What an IPv4 packet holds for TCP.
pub enum Routed<T> {
    /// The packet is discarded as one with a bad IPv4 header.
    BadIpv4(DecodeError),
    /// The packet is discarded as one of another protocol.
    NotTcp,
    /// The bytes of the TCP segment in the packet.
    Tcp(T),
}

/// Where `packet` goes once its IPv4 header is decoded with the result
/// `decoded`. A header that was not accepted stops the packet. An accepted
/// header must announce no more bytes than `packet` holds, and no fewer than
/// the header takes; its protocol must be TCP; and the segment is what
/// follows the header, options included, up to the total length announced.
pub open spec fn routed(packet: Seq<u8>, decoded: Result<Ipv4Fields, DecodeError>) -> Routed<
    Seq<u8>,
> {
    match decoded {
        Err(e) => Routed::BadIpv4(e),
        Ok(iph) => if iph.total_len < iph.header_len {
            Routed::BadIpv4(DecodeError::Malformed)
        } else if packet.len() < iph.total_len {
            Routed::BadIpv4(DecodeError::Truncated)
        } else if iph.protocol != PROTOCOL_TCP {
            Routed::NotTcp
        } else {
            Routed::Tcp(packet.subrange(iph.header_len as int, iph.total_len as int))
        },
    }
}

/// What a packet with the IPv4 header `iph` holds once the TCP header of its
/// segment `segment` is decoded with the result `decoded`. A header that was
/// not accepted, or one that is longer than the segment, makes the segment a
/// bad one. The data is what follows the header, options included.
pub open spec fn found_in_segment(
    iph: Ipv4Fields,
    segment: Seq<u8>,
    decoded: Result<TcpFields, DecodeError>,
) -> Classified {
    match decoded {
        Err(e) => Classified::BadTcp(e),
        Ok(tcph) => if segment.len() < tcph.header_len {
            Classified::BadTcp(DecodeError::Malformed)
        } else {
            Classified::Segment {
                iph,
                tcph,
                payload: segment.subrange(tcph.header_len as int, segment.len() as int),
            }
        },
    }
}

/// What `frame` holds. A frame carries an IPv4 packet where it has the four
/// bytes of the prefix and they name IPv4. The packet goes where [`routed`]
/// says by its decoded header, and a TCP segment in it is classified as
/// [`found_in_segment`] says by its decoded header.
pub open spec fn classify(frame: Seq<u8>) -> Classified {
    if frame.len() < 4 || be16(frame[2], frame[3]) != ETHERTYPE_IPV4 {
        Classified::NotIpv4
    } else {
        let packet = frame.subrange(4, frame.len() as int);
        match ipv4_decoded(packet) {
            Err(e) => Classified::BadIpv4(e),
            Ok(iph) => match routed(packet, Ok(iph)) {
                Routed::BadIpv4(e) => Classified::BadIpv4(e),
                Routed::NotTcp => Classified::NotTcp,
                Routed::Tcp(segment) => found_in_segment(
                    iph,
                    segment,
                    tcp_decoded(iph.source, iph.destination, segment),
                ),
            },
        }
    }
}

/// Decides where `packet` goes once its IPv4 header is decoded with the
/// result `decoded`: it is discarded, or its TCP segment is handed out.
pub fn route_packet<'a>(packet: &'a [u8], decoded: Result<Ipv4Fields, DecodeError>) -> (r: Routed<
    &'a [u8],
>)
    ensures
        match routed(packet@, decoded) {
            Routed::BadIpv4(e) => r == Routed::<&[u8]>::BadIpv4(e),
            Routed::NotTcp => r is NotTcp,
            Routed::Tcp(segment) => r matches Routed::Tcp(s) && s@ == segment,
        },
{
    let iph = match decoded {
        Ok(iph) => iph,
        Err(e) => {
            return Routed::BadIpv4(e);
        },
    };
    let total: usize = iph.total_len as usize;
    if total < iph.header_len {
        Routed::BadIpv4(DecodeError::Malformed)
    } else if packet.len() < total {
        Routed::BadIpv4(DecodeError::Truncated)
    } else if iph.protocol != PROTOCOL_TCP {
        Routed::NotTcp
    } else {
        Routed::Tcp(&packet[iph.header_len..total])
    }
}

/// Decides what a packet with the IPv4 header `iph` holds once the TCP header
/// of its segment `segment` is decoded with the result `decoded`: a bad
/// segment, or a segment with its data.
pub fn route_segment<'a>(
    iph: Ipv4Fields,
    segment: &'a [u8],
    decoded: Result<TcpFields, DecodeError>,
) -> (found: Demuxed<'a>)
    ensures
        found@ == found_in_segment(iph, segment@, decoded),
{
    match decoded {
        Err(e) => Demuxed::BadTcp(e),
        Ok(tcph) => if segment.len() < tcph.header_len {
            Demuxed::BadTcp(DecodeError::Malformed)
        } else {
            Demuxed::Segment { iph, tcph, payload: &segment[tcph.header_len..segment.len()] }
        },
    }
}

/// Finds out what `frame` holds, and where it holds a TCP segment, hands out
/// the fields of both headers and the segment's data.
pub fn demultiplex<'a>(frame: &'a [u8]) -> (found: Demuxed<'a>)
    ensures
        found@ == classify(frame@),
{
    if frame.len() < FRAME_PREFIX_LEN {
        return Demuxed::NotIpv4;
    }
    let proto: u16 = frame[2] as u16 * 256 + frame[3] as u16;
    if proto != ETHERTYPE_IPV4 {
        // no ipv4
        return Demuxed::NotIpv4;
    }
    let packet = &frame[FRAME_PREFIX_LEN..frame.len()];
    let iph = match decode_ipv4(packet) {
        Ok(iph) => iph,
        Err(e) => {
            return Demuxed::BadIpv4(e);
        },
    };
    match route_packet(packet, Ok(iph)) {
        Routed::BadIpv4(e) => Demuxed::BadIpv4(e),
        Routed::NotTcp => Demuxed::NotTcp,
        Routed::Tcp(segment) => {
            let decoded = decode_tcp(iph.source, iph.destination, segment);
            route_segment(iph, segment, decoded)
        },
    }
}

/// The frame that carries the reply `seg`, which has no data.
pub open spec fn reply_frame(seg: Segment) -> Seq<u8> {
    frame_bytes(packet_bytes(seg, Seq::<u8>::empty()))
}

/// Whether every connection in a table with contents `m` is well formed.
pub open spec fn all_wf(m: Map<u128, Connection>) -> bool {
    forall|k: u128| #[trigger] m.contains_key(k) ==> m[k].wf()
}

/// What a frame that holds `found` does to a table with contents `m`: the
/// contents afterwards, and the segment to send in answer. A frame without a
/// valid segment does nothing. A valid segment goes to the connection kept
/// under its quad, or to a fresh one, and that connection takes one step with
/// the initial sequence number that the quad has under `secret` when the
/// clock shows `clock`.
pub open spec fn dispatched(
    m: Map<u128, Connection>,
    found: Classified,
    clock: u32,
    secret: IsnSecret,
) -> (Map<u128, Connection>, Option<Segment>) {
    match found {
        Classified::Segment { iph, tcph, payload } => {
            let quad = Quad::of(iph, tcph);
            let s = step(
                found_or_fresh(m, quad),
                iph,
                tcph,
                payload.len() as int,
                isn_for(clock, secret, quad),
            );
            (m.insert(quad.key(), s.next), s.reply)
        },
        _ => (m, None),
    }
}

/// Whether `outcome` is what the endpoint reports for a frame that holds
/// `found`, when the answer to it is `answer`. A frame that is discarded is
/// reported with the reason. A segment that was handed to its connection is
/// reported with its quad and with the frame that carries the answer, if
/// there is one.
pub open spec fn reports(
    outcome: FrameOutcome,
    found: Classified,
    answer: Option<Segment>,
) -> bool {
    match found {
        Classified::NotIpv4 => outcome is NotIpv4,
        Classified::BadIpv4(e) => outcome == FrameOutcome::BadIpv4(e),
        Classified::NotTcp => outcome is NotTcp,
        Classified::BadTcp(e) => outcome == FrameOutcome::BadTcp(e),
        Classified::Segment { iph, tcph, payload } => {
            &&& outcome matches FrameOutcome::Delivered { quad, reply }
            &&& quad == Quad::of(iph, tcph)
            &&& match answer {
                Some(seg) => reply matches Some(bytes) && bytes@ == reply_frame(seg),
                None => reply is None,
            }
        },
    }
}

/// Hands a valid segment to the connection of its quad, which is made on first
/// contact, and returns the frame to send where the connection answers.
fn deliver(
    table: &mut ConnectionTable,
    iph: &Ipv4Fields,
    tcph: &TcpFields,
    payload: &[u8],
    clock: u32,
    secret: &IsnSecret,
) -> (reply: Option<Vec<u8>>)
    ensures
        all_wf(old(table)@) ==> all_wf(final(table)@),
        ({
            let found = Classified::Segment { iph: *iph, tcph: *tcph, payload: payload@ };
            let after = dispatched(old(table)@, found, clock, *secret);
            &&& final(table)@ == after.0
            &&& match after.1 {
                Some(seg) => reply matches Some(bytes) && bytes@ == reply_frame(seg),
                None => reply is None,
            }
        }),
{
    let quad = Quad::from_headers(iph, tcph);
    let isn: u32 = initial_sequence_number(clock, secret, &quad);
    let conn = table.get_or_create(quad);
    let answer = conn.on_segment(iph, tcph, payload, isn);
    match answer {
        Some(seg) => {
            let no_data: Vec<u8> = Vec::new();
            match encode_segment(&seg, no_data.as_slice()) {
                Some(packet) => Some(frame_packet(packet.as_slice())),
                None => None,
            }
        },
        None => None,
    }
}

/// Acts on what a frame was found to hold. A frame without a valid segment
/// changes nothing and is reported with the reason. A valid segment goes to
/// the connection of its quad, which is made on first contact, and the frame
/// that carries the connection's answer is reported with it.
pub fn dispatch(
    table: &mut ConnectionTable,
    found: Demuxed,
    clock: u32,
    secret: &IsnSecret,
) -> (outcome: FrameOutcome)
    ensures
        all_wf(old(table)@) ==> all_wf(final(table)@),
        final(table)@ == dispatched(old(table)@, found@, clock, *secret).0,
        reports(outcome, found@, dispatched(old(table)@, found@, clock, *secret).1),
        !(found@ is Segment) ==> final(table)@ == old(table)@ && !(outcome is Delivered),
{
    match found {
        Demuxed::NotIpv4 => FrameOutcome::NotIpv4,
        Demuxed::BadIpv4(e) => FrameOutcome::BadIpv4(e),
        Demuxed::NotTcp => FrameOutcome::NotTcp,
        Demuxed::BadTcp(e) => FrameOutcome::BadTcp(e),
        Demuxed::Segment { iph, tcph, payload } => {
            let quad = Quad::from_headers(&iph, &tcph);
            let reply = deliver(table, &iph, &tcph, payload, clock, secret);
            FrameOutcome::Delivered { quad, reply }
        },
    }
}

/// Handles one frame from the interface.
///
/// A frame that does not hold a valid TCP segment in a valid IPv4 packet is
/// discarded: the table stays as it is, nothing is to be sent, and the outcome
/// says why. A valid segment goes to the connection of its quad, which is made
/// on first contact; the connection takes the step that [`step`] describes,
/// with the initial sequence number that [`isn_for`] gives for the quad under
/// `secret` when the clock shows `clock`, and the outcome holds the frame to
/// send where the connection answers.
pub fn process_frame(
    table: &mut ConnectionTable,
    frame: &[u8],
    clock: u32,
    secret: &IsnSecret,
) -> (outcome: FrameOutcome)
    ensures
        all_wf(old(table)@) ==> all_wf(final(table)@),
        final(table)@ == dispatched(old(table)@, classify(frame@), clock, *secret).0,
        reports(
            outcome,
            classify(frame@),
            dispatched(old(table)@, classify(frame@), clock, *secret).1,
        ),
        !(classify(frame@) is Segment) ==> final(table)@ == old(table)@ && !(outcome is Delivered),
{
    dispatch(table, demultiplex(frame), clock, secret)
}

/// A packet of another protocol than TCP reaches no connection: a frame that
/// carries a valid IPv4 packet whose protocol is not TCP is found to be just
/// that, whatever the packet holds beyond its header, so it changes no table
/// and has no answer.
pub proof fn lemma_other_protocol_is_discarded(
    frame: Seq<u8>,
    m: Map<u128, Connection>,
    clock: u32,
    secret: IsnSecret,
)
    requires
        frame.len() >= 4,
        be16(frame[2], frame[3]) == ETHERTYPE_IPV4,
        ipv4_decoded(frame.subrange(4, frame.len() as int)) matches Ok(iph) && iph.protocol
            != PROTOCOL_TCP && iph.total_len <= frame.len() - 4,
    ensures
        classify(frame) == Classified::NotTcp,
        dispatched(m, classify(frame), clock, secret) == (m, None::<Segment>),
{
}

/// A segment with a broken header reaches no connection: a frame is found to
/// hold a bad segment where its valid IPv4 packet announces TCP and the
/// segment in it does not decode, be it cut short, misshapen or with a wrong
/// checksum. So it changes no table, not even for the quad that the broken
/// header names, and has no answer.
pub proof fn lemma_broken_tcp_header_is_discarded(
    frame: Seq<u8>,
    m: Map<u128, Connection>,
    clock: u32,
    secret: IsnSecret,
)
    requires
        frame.len() >= 4,
        be16(frame[2], frame[3]) == ETHERTYPE_IPV4,
        ({
            let packet = frame.subrange(4, frame.len() as int);
            &&& ipv4_decoded(packet) matches Ok(iph)
            &&& routed(packet, Ok(iph)) matches Routed::Tcp(segment)
            &&& tcp_decoded(iph.source, iph.destination, segment) is Err
        }),
    ensures
        classify(frame) is BadTcp,
        dispatched(m, classify(frame), clock, secret) == (m, None::<Segment>),
{
}

/// The first SYN of a quad is answered with a newly chosen initial sequence
/// number: the number that the quad has under the secret at the time of the
/// clock. The table holds the quad's connection afterwards, with its handshake
/// pending.
pub proof fn lemma_first_syn_takes_the_isn_of_its_quad(
    m: Map<u128, Connection>,
    iph: Ipv4Fields,
    tcph: TcpFields,
    payload: Seq<u8>,
    clock: u32,
    secret: IsnSecret,
)
    requires
        tcph.syn,
        !m.contains_key(Quad::of(iph, tcph).key()),
    ensures
        ({
            let quad = Quad::of(iph, tcph);
            let isn = isn_for(clock, secret, quad);
            let after = dispatched(m, Classified::Segment { iph, tcph, payload }, clock, secret);
            &&& after.1 == Some(syn_ack(iph, tcph, isn))
            &&& after.0 == m.insert(quad.key(), after_syn(tcph, isn))
        }),
{
}

/// A frame with the same SYN that comes again before the handshake completes
/// changes nothing and gets the same answer, though the clock has moved on.
pub proof fn lemma_replayed_syn_frame_gets_the_same_answer(
    m: Map<u128, Connection>,
    iph: Ipv4Fields,
    tcph: TcpFields,
    payload: Seq<u8>,
    first_clock: u32,
    second_clock: u32,
    secret: IsnSecret,
)
    requires
        tcph.syn,
        found_or_fresh(m, Quad::of(iph, tcph)).state == TcpState::Listen || found_or_fresh(
            m,
            Quad::of(iph, tcph),
        ).state == TcpState::SynRecv,
    ensures
        ({
            let found = Classified::Segment { iph, tcph, payload };
            let once = dispatched(m, found, first_clock, secret);
            let twice = dispatched(once.0, found, second_clock, secret);
            twice == once
        }),
{
    let quad = Quad::of(iph, tcph);
    lemma_syn_replay_is_idempotent(
        found_or_fresh(m, quad),
        iph,
        tcph,
        payload.len() as int,
        isn_for(first_clock, secret, quad),
        isn_for(second_clock, secret, quad),
    );
}

} // verus!
