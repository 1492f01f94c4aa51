//! The segment emitter: a segment and its data as the bytes of one frame.

use vstd::prelude::*;
use crate::tcp::Segment;
use crate::wire::{
    compute_tcp_checksum, ipv4_header_bytes, tcp_checksum_of, tcp_header_bytes, write_ipv4_header,
    write_tcp_header, TcpFields, PROTOCOL_TCP,
};

verus! {

/// The time to live of every packet that the endpoint sends.
pub const DEFAULT_TTL: u8 = 64;

/// The most data that fits into one packet beside the two headers.
pub const MAX_PAYLOAD_LEN: usize = 65495;

/// The length of the TCP header that the endpoint sends: it has no options.
pub const TCP_HEADER_LEN: usize = 20;

/// The TCP header fields of the outbound segment `seg` with `checksum` as its checksum.
pub open spec fn header_of(seg: Segment, checksum: u16) -> TcpFields {
    TcpFields {
        source_port: seg.source_port,
        destination_port: seg.destination_port,
        sequence_number: seg.sequence_number,
        acknowledgment_number: seg.acknowledgment_number,
        header_len: 20,
        fin: false,
        syn: seg.syn,
        rst: false,
        ack: seg.ack,
        window_size: seg.window_size,
        checksum,
    }
}

/// The bytes of `seg` with the data `payload`: its TCP header and the data,
/// where the checksum in the header is the one that the codec computes for
/// the same bytes with a checksum field of zero.
pub open spec fn segment_bytes(seg: Segment, payload: Seq<u8>) -> Seq<u8> {
    let unsummed = tcp_header_bytes(header_of(seg, 0)) + payload;
    let checksum = tcp_checksum_of(seg.source_ip, seg.destination_ip, unsummed);
    tcp_header_bytes(header_of(seg, checksum)) + payload
}

/// The bytes of the IPv4 packet that carries `seg` with the data `payload`:
/// the IPv4 header, the TCP header and the data, in this order.
pub open spec fn packet_bytes(seg: Segment, payload: Seq<u8>) -> Seq<u8> {
    ipv4_header_bytes(
        (20 + payload.len()) as u16,
        DEFAULT_TTL,
        PROTOCOL_TCP,
        seg.source_ip,
        seg.destination_ip,
    ) + segment_bytes(seg, payload)
}

/// The bytes of the frame that carries the IPv4 packet `packet`: two bytes of
/// flags, which are zero, and the protocol number of IPv4, `0x0800`, before
/// the packet.
pub open spec fn frame_bytes(packet: Seq<u8>) -> Seq<u8> {
    seq![0u8, 0u8, 0x08u8, 0x00u8] + packet
}

fn fields_of(seg: &Segment, checksum: u16) -> (f: TcpFields)
    ensures
        f == header_of(*seg, checksum),
{
    TcpFields {
        source_port: seg.source_port,
        destination_port: seg.destination_port,
        sequence_number: seg.sequence_number,
        acknowledgment_number: seg.acknowledgment_number,
        header_len: 20,
        fin: false,
        syn: seg.syn,
        rst: false,
        ack: seg.ack,
        window_size: seg.window_size,
        checksum,
    }
}

/// Puts a packet together from the bytes of its IPv4 header, the TCP header
/// of `seg` with `checksum` as its checksum, and the data `payload`, in this
/// order. With no IPv4 header the result is the segment alone.
pub fn assemble_packet(ip_header: &[u8], seg: &Segment, checksum: u16, payload: &[u8]) -> (packet:
    Vec<u8>)
    ensures
        packet@ == ip_header@ + tcp_header_bytes(header_of(*seg, checksum)) + payload@,
        packet@.len() == ip_header@.len() + 20 + payload@.len(),
{
    let mut packet: Vec<u8> = Vec::new();
    packet.extend_from_slice(ip_header);
    let mut header: Vec<u8> = write_tcp_header(&fields_of(seg, checksum));
    packet.append(&mut header);
    packet.extend_from_slice(payload);
    packet
}

/// Serializes `seg` with the data `payload` into one IPv4 packet: the IPv4
/// header with the addresses of `seg`, protocol TCP and the default time to
/// live, the TCP header, and the data, with both checksums set by the codec.
/// There is no packet where the data is too long for one.
pub fn encode_segment(seg: &Segment, payload: &[u8]) -> (packet: Option<Vec<u8>>)
    ensures
        packet is Some <==> payload@.len() <= MAX_PAYLOAD_LEN,
        packet matches Some(bytes) ==> bytes@ == packet_bytes(*seg, payload@),
        packet matches Some(bytes) ==> bytes@.len() == 40 + payload@.len(),
{
    if payload.len() > MAX_PAYLOAD_LEN {
        return None;
    }
    let no_header: Vec<u8> = Vec::new();
    let unsummed: Vec<u8> = assemble_packet(no_header.as_slice(), seg, 0, payload);
    let checksum: u16 = match compute_tcp_checksum(
        seg.source_ip,
        seg.destination_ip,
        unsummed.as_slice(),
    ) {
        Some(sum) => sum,
        None => {
            return None;
        },
    };
    let segment_len: u16 = (TCP_HEADER_LEN + payload.len()) as u16;
    match write_ipv4_header(
        segment_len,
        DEFAULT_TTL,
        PROTOCOL_TCP,
        seg.source_ip,
        seg.destination_ip,
    ) {
        Some(ip_header) => Some(assemble_packet(ip_header.as_slice(), seg, checksum, payload)),
        None => None,
    }
}

/// Puts the frame prefix before `packet`: flags of zero and the protocol
/// number of IPv4.
pub fn frame_packet(packet: &[u8]) -> (frame: Vec<u8>)
    ensures
        frame@ == frame_bytes(packet@),
{
    let mut frame: Vec<u8> = Vec::new();
    frame.push(0);
    frame.push(0);
    frame.push(0x08);
    frame.push(0x00);
    frame.extend_from_slice(packet);
    frame
}

} // verus!
