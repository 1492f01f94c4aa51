use tcp_endpoint::emit::assemble_packet;
use tcp_endpoint::tcp::Segment;
use tcp_endpoint::wire::{decode_ipv4, decode_tcp, DecodeError, Ipv4Fields, TcpFields};

/// A small deterministic generator of test bytes.
struct Noise(u64);

impl Noise {
    fn next(&mut self) -> u64 {
        self.0 ^= self.0 << 13;
        self.0 ^= self.0 >> 7;
        self.0 ^= self.0 << 17;
        self.0
    }

    fn bytes(&mut self, len: usize) -> Vec<u8> {
        (0..len).map(|_| (self.next() >> 24) as u8).collect()
    }
}

/// The Internet checksum of RFC 1071 over `data`.
fn internet_checksum(data: &[u8]) -> u16 {
    let mut sum: u32 = 0;
    for pair in data.chunks(2) {
        let hi = pair[0] as u32;
        let lo = if pair.len() > 1 { pair[1] as u32 } else { 0 };
        sum += (hi << 8) | lo;
    }
    while sum >> 16 != 0 {
        sum = (sum & 0xFFFF) + (sum >> 16);
    }
    !(sum as u16)
}

fn expected_ipv4(b: &[u8]) -> Option<Ipv4Fields> {
    if b.len() < 20 {
        return None;
    }
    let words = (b[0] % 16) as usize;
    let total = u16::from_be_bytes([b[2], b[3]]);
    if b[0] / 16 != 4 || words < 5 || b.len() < words * 4 || (total as usize) < words * 4 {
        return None;
    }
    Some(Ipv4Fields {
        header_len: words * 4,
        total_len: total,
        protocol: b[9],
        checksum: u16::from_be_bytes([b[10], b[11]]),
        source: u32::from_be_bytes([b[12], b[13], b[14], b[15]]),
        destination: u32::from_be_bytes([b[16], b[17], b[18], b[19]]),
    })
}

fn expected_tcp(b: &[u8]) -> Option<TcpFields> {
    if b.len() < 20 {
        return None;
    }
    let words = (b[12] / 16) as usize;
    if words < 5 || b.len() < words * 4 {
        return None;
    }
    Some(TcpFields {
        source_port: u16::from_be_bytes([b[0], b[1]]),
        destination_port: u16::from_be_bytes([b[2], b[3]]),
        sequence_number: u32::from_be_bytes([b[4], b[5], b[6], b[7]]),
        acknowledgment_number: u32::from_be_bytes([b[8], b[9], b[10], b[11]]),
        header_len: words * 4,
        fin: b[13] & 1 != 0,
        syn: b[13] & 2 != 0,
        rst: b[13] & 4 != 0,
        ack: b[13] & 16 != 0,
        window_size: u16::from_be_bytes([b[14], b[15]]),
        checksum: u16::from_be_bytes([b[16], b[17]]),
    })
}

#[test]
fn ipv4_headers_are_read_by_their_layout() {
    let mut noise = Noise(0x9E37_79B9_7F4A_7C15);
    let mut accepted = 0;
    let mut refused = 0;
    for round in 0..4000 {
        let len = (noise.next() % 70) as usize;
        let mut bytes = noise.bytes(len);
        if len > 0 && round % 4 != 0 {
            // most headers get version 4 and a header length that may or may not fit
            bytes[0] = 0x40 | (noise.next() % 16) as u8;
        }
        if len > 3 && round % 3 == 0 {
            bytes[2] = 0;
        }
        if len > 6 {
            // the reserved flag is zero in every header that follows RFC 791
            bytes[6] &= 0x7F;
        }
        match expected_ipv4(&bytes) {
            None => {
                refused += 1;
                assert_eq!(decode_ipv4(&bytes), Err(DecodeError::Malformed), "{:?}", bytes);
            },
            Some(mut fields) => {
                accepted += 1;
                // with the checksum of RFC 791 in place the header is accepted
                bytes[10] = 0;
                bytes[11] = 0;
                let sum = internet_checksum(&bytes[..fields.header_len]);
                bytes[10..12].copy_from_slice(&sum.to_be_bytes());
                fields.checksum = sum;
                assert_eq!(decode_ipv4(&bytes), Ok(fields), "{:?}", bytes);
                // and with any other it is not
                bytes[11] ^= 1 << (noise.next() % 8);
                assert_eq!(decode_ipv4(&bytes), Err(DecodeError::BadChecksum), "{:?}", bytes);
            },
        }
    }
    assert!(accepted > 500 && refused > 500);
}

#[test]
fn tcp_headers_are_read_by_their_layout() {
    let mut noise = Noise(0xD1B5_4A32_D192_ED03);
    let mut accepted = 0;
    let mut refused = 0;
    for round in 0..4000 {
        let len = (noise.next() % 90) as usize;
        let mut bytes = noise.bytes(len);
        if len > 12 && round % 4 != 0 {
            bytes[12] = ((5 + noise.next() % 4) as u8) << 4 | (bytes[12] & 0x0F);
        }
        if len > 12 {
            // the reserved bits are zero in every header that follows RFC 793
            bytes[12] &= 0xF1;
        }
        let source = noise.next() as u32;
        let destination = noise.next() as u32;
        match expected_tcp(&bytes) {
            None => {
                refused += 1;
                assert_eq!(
                    decode_tcp(source, destination, &bytes),
                    Err(DecodeError::Malformed),
                    "{:?}",
                    bytes
                );
            },
            Some(mut fields) => {
                accepted += 1;
                // with the checksum of RFC 793 in place the segment is accepted
                bytes[16] = 0;
                bytes[17] = 0;
                let mut summed = Vec::new();
                summed.extend_from_slice(&source.to_be_bytes());
                summed.extend_from_slice(&destination.to_be_bytes());
                summed.extend_from_slice(&[0, 6]);
                summed.extend_from_slice(&(bytes.len() as u16).to_be_bytes());
                summed.extend_from_slice(&bytes);
                let sum = internet_checksum(&summed);
                bytes[16..18].copy_from_slice(&sum.to_be_bytes());
                fields.checksum = sum;
                assert_eq!(decode_tcp(source, destination, &bytes), Ok(fields), "{:?}", bytes);
                // and with any other it is not
                bytes[16] ^= 1 << (noise.next() % 8);
                assert_eq!(
                    decode_tcp(source, destination, &bytes),
                    Err(DecodeError::BadChecksum),
                    "{:?}",
                    bytes
                );
            },
        }
    }
    assert!(accepted > 500 && refused > 500);
}

#[test]
fn tcp_headers_are_written_by_their_layout() {
    let mut noise = Noise(0x2545_F491_4F6C_DD1D);
    for _ in 0..2000 {
        let seg = Segment {
            source_ip: noise.next() as u32,
            destination_ip: noise.next() as u32,
            source_port: noise.next() as u16,
            destination_port: noise.next() as u16,
            sequence_number: noise.next() as u32,
            acknowledgment_number: noise.next() as u32,
            syn: noise.next() % 2 == 0,
            ack: noise.next() % 2 == 0,
            window_size: noise.next() as u16,
        };
        let checksum = noise.next() as u16;
        let mut expected = Vec::new();
        expected.extend_from_slice(&seg.source_port.to_be_bytes());
        expected.extend_from_slice(&seg.destination_port.to_be_bytes());
        expected.extend_from_slice(&seg.sequence_number.to_be_bytes());
        expected.extend_from_slice(&seg.acknowledgment_number.to_be_bytes());
        expected.push(0x50);
        expected.push(if seg.syn { 2 } else { 0 } | if seg.ack { 16 } else { 0 });
        expected.extend_from_slice(&seg.window_size.to_be_bytes());
        expected.extend_from_slice(&checksum.to_be_bytes());
        expected.extend_from_slice(&[0, 0]);
        assert_eq!(assemble_packet(&[], &seg, checksum, &[]), expected);
    }
}

#[test]
fn reserved_bits_are_taken_as_zero_by_the_checksums() {
    // the codec computes both checksums from the fields it knows
    let mut packet = Vec::new();
    etherparse::PacketBuilder::ipv4([10, 0, 0, 1], [10, 0, 0, 2], 9)
        .tcp(1, 2, 3, 4)
        .syn()
        .write(&mut packet, &[5, 6])
        .unwrap();
    assert!(decode_ipv4(&packet).is_ok());
    assert!(decode_tcp(0x0A00_0001, 0x0A00_0002, &packet[20..]).is_ok());
    let mut flagged = packet.clone();
    flagged[6] |= 0x80;
    assert_eq!(decode_ipv4(&flagged), decode_ipv4(&packet));
    let mut flagged = packet.clone();
    flagged[20 + 12] |= 0x0E;
    assert_eq!(
        decode_tcp(0x0A00_0001, 0x0A00_0002, &flagged[20..]),
        decode_tcp(0x0A00_0001, 0x0A00_0002, &packet[20..])
    );
}
