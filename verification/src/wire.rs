//! The header codec: IPv4 and TCP headers between bytes and plain values.
//!
//! Headers are read and written by the `etherparse` crate. The functions that
//! call it are those marked `external_body`: their contracts are believed and
//! not proved, and each says above its header which function of `etherparse`
//! it calls and what it claims of it. Everything else here is verified
//! against those contracts.

use vstd::prelude::*;

verus! {

/// The IP protocol number of TCP.
pub const PROTOCOL_TCP: u8 = 6;

/// The largest value of the total-length field of an IPv4 header.
pub const MAX_PACKET_LEN: usize = 65535;

/// What the endpoint reads from the IPv4 header of an inbound packet.
#[derive(Clone, Copy, Debug, PartialEq, Eq, Structural)]
pub struct Ipv4Fields {
    /// Length of the header with its options, in bytes.
    pub header_len: usize,
    /// The total-length field: header and payload together, in bytes.
    pub total_len: u16,
    /// The protocol number of the payload.
    pub protocol: u8,
    /// The header checksum as it stands in the packet.
    pub checksum: u16,
    /// Source address, most significant byte first.
    pub source: u32,
    /// Destination address, most significant byte first.
    pub destination: u32,
}

/// The fields of a TCP header that the endpoint reads and writes.
#[derive(Clone, Copy, Debug, PartialEq, Eq, Structural)]
pub struct TcpFields {
    pub source_port: u16,
    pub destination_port: u16,
    pub sequence_number: u32,
    pub acknowledgment_number: u32,
    /// Length of the header with its options, in bytes.
    pub header_len: usize,
    pub fin: bool,
    pub syn: bool,
    pub rst: bool,
    pub ack: bool,
    pub window_size: u16,
    /// The checksum as it stands in the segment.
    pub checksum: u16,
}

/// Why a header was not accepted.
#[derive(Clone, Copy, Debug, PartialEq, Eq, Structural)]
pub enum DecodeError {
    /// The bytes do not have the structure of the header.
    Malformed,
    /// The header announces more bytes than there are.
    Truncated,
    /// The checksum in the header is not the checksum computed for the bytes.
    BadChecksum,
}

/// The 16-bit number whose big-endian bytes are `hi`, `lo`.
pub open spec fn be16(hi: u8, lo: u8) -> u16 {
    (hi * 256 + lo) as u16
}

/// The 32-bit number whose big-endian bytes are `b0`, `b1`, `b2`, `b3`.
pub open spec fn be32(b0: u8, b1: u8, b2: u8, b3: u8) -> u32 {
    (((b0 * 256 + b1) * 256 + b2) * 256 + b3) as u32
}

/// The fields of the IPv4 header at the start of `b`, where `b` starts with
/// one: at least 20 bytes, version 4, a header length of at least 5 words that
/// `b` holds in full, and a total length that is not less than the header's.
pub open spec fn ipv4_fields(b: Seq<u8>) -> Option<Ipv4Fields> {
    if b.len() >= 20 && b[0] / 16 == 4 && b[0] % 16 >= 5 && b.len() >= (b[0] % 16) * 4 && be16(
        b[2],
        b[3],
    ) >= (b[0] % 16) * 4 {
        Some(
            Ipv4Fields {
                header_len: ((b[0] % 16) * 4) as usize,
                total_len: be16(b[2], b[3]),
                protocol: b[9],
                checksum: be16(b[10], b[11]),
                source: be32(b[12], b[13], b[14], b[15]),
                destination: be32(b[16], b[17], b[18], b[19]),
            },
        )
    } else {
        None
    }
}

/// The fields of the TCP header at the start of `b`, where `b` starts with
/// one: at least 20 bytes and a data offset of at least 5 words that `b` holds
/// in full.
pub open spec fn tcp_fields(b: Seq<u8>) -> Option<TcpFields> {
    if b.len() >= 20 && b[12] / 16 >= 5 && b.len() >= (b[12] / 16) * 4 {
        Some(
            TcpFields {
                source_port: be16(b[0], b[1]),
                destination_port: be16(b[2], b[3]),
                sequence_number: be32(b[4], b[5], b[6], b[7]),
                acknowledgment_number: be32(b[8], b[9], b[10], b[11]),
                header_len: ((b[12] / 16) * 4) as usize,
                fin: b[13] % 2 == 1,
                syn: (b[13] / 2) % 2 == 1,
                rst: (b[13] / 4) % 2 == 1,
                ack: (b[13] / 16) % 2 == 1,
                window_size: be16(b[14], b[15]),
                checksum: be16(b[16], b[17]),
            },
        )
    } else {
        None
    }
}

/// The flags of `f` as they stand in the flags byte of a TCP header: FIN is
/// bit 0, SYN bit 1, RST bit 2 and ACK bit 4.
pub open spec fn flag_bits(f: TcpFields) -> u8 {
    ((if f.fin { 1int } else { 0 }) + (if f.syn { 2int } else { 0 }) + (if f.rst { 4int } else { 0 })
        + (if f.ack { 16int } else { 0 })) as u8
}

/// The bytes of the TCP header without options that holds `f`: the layout of
/// RFC 793 with a data offset of 5 words, the four flags of `f` and no other,
/// and no urgent pointer. The header length in `f` has no part in it.
pub open spec fn tcp_header_bytes(f: TcpFields) -> Seq<u8> {
    seq![
        (f.source_port / 256) as u8,
        (f.source_port % 256) as u8,
        (f.destination_port / 256) as u8,
        (f.destination_port % 256) as u8,
        (f.sequence_number / 0x100_0000) as u8,
        (f.sequence_number / 0x1_0000 % 256) as u8,
        (f.sequence_number / 0x100 % 256) as u8,
        (f.sequence_number % 256) as u8,
        (f.acknowledgment_number / 0x100_0000) as u8,
        (f.acknowledgment_number / 0x1_0000 % 256) as u8,
        (f.acknowledgment_number / 0x100 % 256) as u8,
        (f.acknowledgment_number % 256) as u8,
        0x50u8,
        flag_bits(f),
        (f.window_size / 256) as u8,
        (f.window_size % 256) as u8,
        (f.checksum / 256) as u8,
        (f.checksum % 256) as u8,
        0u8,
        0u8,
    ]
}

/// The header checksum that `etherparse` computes for the IPv4 header whose
/// bytes, options included, are `header`. It is computed from the fields that
/// `etherparse` reads from the header: the checksum that the header carries
/// and its reserved flag are not among them.
pub uninterp spec fn ipv4_checksum_of(header: Seq<u8>) -> u16;

/// The checksum that `etherparse` computes for the TCP segment `segment`
/// (header, options and data) sent from address `source` to address
/// `destination`. It is computed from the two addresses, the segment's
/// length, the fields that `etherparse` reads from the header, and the data:
/// the checksum that the header carries and its reserved bits are not among them.
pub uninterp spec fn tcp_checksum_of(source: u32, destination: u32, segment: Seq<u8>) -> u16;

/// The bytes that `etherparse` writes for an IPv4 header without options that
/// announces a payload of `payload_len` bytes, with its checksum set.
pub uninterp spec fn ipv4_header_bytes(
    payload_len: u16,
    ttl: u8,
    protocol: u8,
    source: u32,
    destination: u32,
) -> Seq<u8>;

/// Calls `etherparse::Ipv4HeaderSlice::from_slice` and reads the fields with
/// the getters of the slice.
///
/// Believed: `from_slice` accepts `bytes` exactly where [`ipv4_fields`] is
/// `Some` (it checks the length, the version, the header length and the total
/// length, and no checksum), and each getter returns the big-endian value at
/// the field's place in the header.
#[verifier::external_body]
fn read_ipv4_header(bytes: &[u8]) -> (r: Option<Ipv4Fields>)
    ensures
        r == ipv4_fields(bytes@),
{
    match etherparse::Ipv4HeaderSlice::from_slice(bytes) {
        Ok(h) => Some(Ipv4Fields {
            header_len: h.slice().len(),
            total_len: h.total_len(),
            protocol: h.protocol(),
            checksum: h.header_checksum(),
            source: u32::from_be_bytes(h.source()),
            destination: u32::from_be_bytes(h.destination()),
        }),
        Err(_) => None,
    }
}

/// Calls `etherparse::Ipv4Header::calc_header_checksum` on the header that
/// `etherparse::Ipv4Header::from_slice` reads from `header`.
///
/// Believed: the call succeeds exactly where the header can be read, and the
/// checksum is a function of the header's bytes.
#[verifier::external_body]
fn compute_ipv4_checksum(header: &[u8]) -> (r: Option<u16>)
    ensures
        r == (if ipv4_fields(header@) is Some {
            Some(ipv4_checksum_of(header@))
        } else {
            None
        }),
{
    match etherparse::Ipv4Header::from_slice(header) {
        Ok((h, _)) => h.calc_header_checksum().ok(),
        Err(_) => None,
    }
}

/// Calls `etherparse::TcpHeaderSlice::from_slice` and reads the fields with
/// the getters of the slice.
///
/// Believed: `from_slice` accepts `bytes` exactly where [`tcp_fields`] is
/// `Some` (it checks the length and the data offset, and no checksum), and
/// each getter returns the big-endian value, or the flag bit, at the field's
/// place in the header.
#[verifier::external_body]
fn read_tcp_header(bytes: &[u8]) -> (r: Option<TcpFields>)
    ensures
        r == tcp_fields(bytes@),
{
    match etherparse::TcpHeaderSlice::from_slice(bytes) {
        Ok(h) => Some(TcpFields {
            source_port: h.source_port(),
            destination_port: h.destination_port(),
            sequence_number: h.sequence_number(),
            acknowledgment_number: h.acknowledgment_number(),
            header_len: h.slice().len(),
            window_size: h.window_size(),
            checksum: h.checksum(),
            fin: h.fin(), syn: h.syn(), rst: h.rst(), ack: h.ack(),
        }),
        Err(_) => None,
    }
}

/// Calls `etherparse::TcpHeader::calc_checksum_ipv4_raw` on the header that
/// `etherparse::TcpHeader::from_slice` reads from `segment`, with the rest of
/// `segment` as the payload.
///
/// Believed: the call succeeds exactly where the header can be read and the
/// segment is no longer than 65535 bytes, and the checksum is a function of
/// the two addresses and the segment's bytes.
#[verifier::external_body]
pub(crate) fn compute_tcp_checksum(source: u32, destination: u32, segment: &[u8]) -> (r: Option<
    u16,
>)
    ensures
        r == (if tcp_fields(segment@) is Some && segment@.len() <= 65535 {
            Some(tcp_checksum_of(source, destination, segment@))
        } else {
            None
        }),
{
    match etherparse::TcpHeader::from_slice(segment) {
        Ok((h, payload)) => h.calc_checksum_ipv4_raw(
            source.to_be_bytes(),
            destination.to_be_bytes(),
            payload,
        ).ok(),
        Err(_) => None,
    }
}

/// Calls `etherparse::Ipv4Header::write` on the header that
/// `etherparse::Ipv4Header::new` makes of the arguments.
///
/// Believed: `write` succeeds exactly where the payload length leaves room for
/// the 20 bytes of the header in the total length, and writes 20 bytes that
/// are a function of the arguments.
#[verifier::external_body]
pub(crate) fn write_ipv4_header(
    payload_len: u16,
    ttl: u8,
    protocol: u8,
    source: u32,
    destination: u32,
) -> (r: Option<Vec<u8>>)
    ensures
        r is Some <==> payload_len <= 65515,
        r matches Some(v) ==> v@.len() == 20 && v@ == ipv4_header_bytes(
            payload_len,
            ttl,
            protocol,
            source,
            destination,
        ),
{
    let h = etherparse::Ipv4Header::new(
        payload_len,
        ttl,
        protocol,
        source.to_be_bytes(),
        destination.to_be_bytes(),
    );
    let mut out = Vec::new();
    match h.write(&mut out) {
        Ok(()) => Some(out),
        Err(_) => None,
    }
}

/// Calls `etherparse::TcpHeader::write` on the header that
/// `etherparse::TcpHeader::new` makes of `f`, with the acknowledgment number,
/// the four flags and the checksum of `f` set in it.
///
/// Believed: `write` puts out the 20 bytes of [`tcp_header_bytes`]; it
/// computes no checksum.
#[verifier::external_body]
pub(crate) fn write_tcp_header(f: &TcpFields) -> (r: Vec<u8>)
    ensures
        r@ == tcp_header_bytes(*f),
{
    let mut h = etherparse::TcpHeader::new(
        f.source_port,
        f.destination_port,
        f.sequence_number,
        f.window_size,
    );
    h.acknowledgment_number = f.acknowledgment_number;
    (h.fin, h.syn, h.rst, h.ack) = (f.fin, f.syn, f.rst, f.ack);
    h.checksum = f.checksum;
    let mut out = Vec::new();
    let _ = h.write(&mut out);
    out
}

/// What becomes of a well-formed IPv4 header with the fields `fields` once
/// `computed` is known to be the checksum of its bytes: it is accepted where
/// the checksum it carries is that one.
pub open spec fn ipv4_verdict(fields: Ipv4Fields, computed: u16) -> Result<
    Ipv4Fields,
    DecodeError,
> {
    if fields.checksum == computed {
        Ok(fields)
    } else {
        Err(DecodeError::BadChecksum)
    }
}

/// What becomes of a well-formed TCP header with the fields `fields` once
/// `computed` is known to be the checksum of its segment: it is accepted
/// where the checksum it carries is that one.
pub open spec fn tcp_verdict(fields: TcpFields, computed: u16) -> Result<TcpFields, DecodeError> {
    if fields.checksum == computed {
        Ok(fields)
    } else {
        Err(DecodeError::BadChecksum)
    }
}

/// What [`decode_ipv4`] makes of `packet`.
pub open spec fn ipv4_decoded(packet: Seq<u8>) -> Result<Ipv4Fields, DecodeError> {
    match ipv4_fields(packet) {
        None => Err(DecodeError::Malformed),
        Some(f) => ipv4_verdict(f, ipv4_checksum_of(packet.subrange(0, f.header_len as int))),
    }
}

/// What [`decode_tcp`] makes of `segment`, sent from `source` to `destination`.
pub open spec fn tcp_decoded(source: u32, destination: u32, segment: Seq<u8>) -> Result<
    TcpFields,
    DecodeError,
> {
    match tcp_fields(segment) {
        None => Err(DecodeError::Malformed),
        Some(f) => if segment.len() > MAX_PACKET_LEN {
            Err(DecodeError::Malformed)
        } else {
            tcp_verdict(f, tcp_checksum_of(source, destination, segment))
        },
    }
}

/// Accepts the IPv4 header with the fields `fields` where the checksum it
/// carries is `computed`, the checksum computed for its bytes.
pub fn accept_ipv4(fields: Ipv4Fields, computed: u16) -> (r: Result<Ipv4Fields, DecodeError>)
    ensures
        r == ipv4_verdict(fields, computed),
{
    if fields.checksum == computed {
        Ok(fields)
    } else {
        Err(DecodeError::BadChecksum)
    }
}

/// Accepts the TCP header with the fields `fields` where the checksum it
/// carries is `computed`, the checksum computed for its segment.
pub fn accept_tcp(fields: TcpFields, computed: u16) -> (r: Result<TcpFields, DecodeError>)
    ensures
        r == tcp_verdict(fields, computed),
{
    if fields.checksum == computed {
        Ok(fields)
    } else {
        Err(DecodeError::BadChecksum)
    }
}

/// Decodes the IPv4 header at the start of `packet` and validates it: the
/// header is well formed, with all its options in `packet`, and the checksum
/// it carries is the one that the codec computes for it. Whether `packet`
/// holds the payload that the header announces is not looked at.
pub fn decode_ipv4(packet: &[u8]) -> (r: Result<Ipv4Fields, DecodeError>)
    ensures
        r == ipv4_decoded(packet@),
        r matches Ok(f) ==> 20 <= f.header_len <= f.total_len && f.header_len <= packet@.len(),
{
    let fields = match read_ipv4_header(packet) {
        Some(f) => f,
        None => {
            return Err(DecodeError::Malformed);
        },
    };
    let header = &packet[0..fields.header_len];
    match compute_ipv4_checksum(header) {
        Some(sum) => accept_ipv4(fields, sum),
        None => Err(DecodeError::Malformed),
    }
}

/// Decodes the TCP header at the start of `segment`, which was sent from
/// address `source` to address `destination`, and validates it: the header is
/// well formed, with all its options in `segment`, the segment is no longer
/// than an IPv4 packet can be, and the checksum it carries is the one that
/// the codec computes over addresses, header and data.
pub fn decode_tcp(source: u32, destination: u32, segment: &[u8]) -> (r: Result<
    TcpFields,
    DecodeError,
>)
    ensures
        r == tcp_decoded(source, destination, segment@),
        r matches Ok(f) ==> 20 <= f.header_len <= segment@.len(),
{
    let fields = match read_tcp_header(segment) {
        Some(f) => f,
        None => {
            return Err(DecodeError::Malformed);
        },
    };
    match compute_tcp_checksum(source, destination, segment) {
        Some(sum) => accept_tcp(fields, sum),
        None => Err(DecodeError::Malformed),
    }
}

/// A segment that is shorter than a TCP header, or whose data offset is less
/// than five words or more than the segment holds, does not decode.
pub proof fn lemma_short_tcp_header_does_not_decode(source: u32, destination: u32, segment: Seq<u8>)
    requires
        segment.len() < 20 || segment[12] / 16 < 5 || segment.len() < (segment[12] / 16) * 4,
    ensures
        tcp_decoded(source, destination, segment) == Err::<TcpFields, DecodeError>(
            DecodeError::Malformed,
        ),
{
}

} // verus!
