use tcp_endpoint::quad::Quad;
use tcp_endpoint::table::ConnectionTable;
use tcp_endpoint::tcp::{Connection, TcpState};
use tcp_endpoint::wire::{Ipv4Fields, TcpFields};

fn quad(src_port: u16) -> Quad {
    Quad { src_ip: 0xC0A8_0002, src_port, dst_ip: 0xC0A8_0001, dst_port: 80 }
}

#[test]
fn new_table_is_empty() {
    let table = ConnectionTable::new();
    assert_eq!(table.len(), 0);
    assert_eq!(table.get(&quad(1)), None);
    assert!(!table.contains(&quad(1)));
    assert_eq!(ConnectionTable::default().len(), 0);
}

#[test]
fn first_contact_makes_a_listening_connection() {
    let mut table = ConnectionTable::new();
    let conn = table.get_or_create(quad(1));
    assert_eq!(*conn, Connection::new());
    assert_eq!(conn.state, TcpState::Listen);
    assert_eq!(table.len(), 1);
    assert!(table.contains(&quad(1)));
    assert_eq!(table.get(&quad(1)), Some(Connection::new()));
}

#[test]
fn equal_keys_reach_the_same_connection() {
    let mut table = ConnectionTable::new();
    table.get_or_create(quad(1)).send.nxt = 4711;
    let again = table.get_or_create(Quad {
        src_ip: 0xC0A8_0002,
        src_port: 1,
        dst_ip: 0xC0A8_0001,
        dst_port: 80,
    });
    assert_eq!(again.send.nxt, 4711);
    again.state = TcpState::Estab;
    assert_eq!(table.get_or_create(quad(1)).state, TcpState::Estab);
    assert_eq!(table.len(), 1);
}

#[test]
fn different_keys_reach_different_connections() {
    let mut table = ConnectionTable::new();
    table.get_or_create(quad(1)).state = TcpState::Estab;
    let other = table.get_or_create(quad(2));
    assert_eq!(other.state, TcpState::Listen);
    other.state = TcpState::Closed;
    assert_eq!(table.get(&quad(1)).unwrap().state, TcpState::Estab);
    assert_eq!(table.get(&quad(2)).unwrap().state, TcpState::Closed);
    assert_eq!(table.len(), 2);
}

#[test]
fn every_part_of_the_quad_tells_connections_apart() {
    let base = quad(1);
    let variants = [
        Quad { src_ip: base.src_ip + 1, ..base },
        Quad { src_port: base.src_port + 1, ..base },
        Quad { dst_ip: base.dst_ip + 1, ..base },
        Quad { dst_port: base.dst_port + 1, ..base },
        // source and destination exchanged
        Quad {
            src_ip: base.dst_ip,
            src_port: base.dst_port,
            dst_ip: base.src_ip,
            dst_port: base.src_port,
        },
    ];
    let mut table = ConnectionTable::new();
    table.get_or_create(base).state = TcpState::Estab;
    for (i, q) in variants.iter().enumerate() {
        assert!(!table.contains(q));
        assert_eq!(table.get_or_create(*q).state, TcpState::Listen);
        assert_eq!(table.len(), i + 2);
    }
    assert_eq!(table.get(&base).unwrap().state, TcpState::Estab);
}

#[test]
fn key_puts_the_four_values_side_by_side() {
    assert_eq!(quad(40000).to_key(), 0xc0a8_0002_9c40_c0a8_0001_0050);
    let all = Quad { src_ip: u32::MAX, src_port: u16::MAX, dst_ip: u32::MAX, dst_port: u16::MAX };
    assert_eq!(all.to_key(), (1u128 << 96) - 1);
    let none = Quad { src_ip: 0, src_port: 0, dst_ip: 0, dst_port: 0 };
    assert_eq!(none.to_key(), 0);
}

#[test]
fn quad_is_read_from_the_two_headers() {
    let iph = Ipv4Fields {
        header_len: 20,
        total_len: 40,
        protocol: 6,
        checksum: 0,
        source: 0x0A00_0001,
        destination: 0x0A00_0002,
    };
    let tcph = TcpFields {
        source_port: 1234,
        destination_port: 443,
        sequence_number: 0,
        acknowledgment_number: 0,
        header_len: 20,
        fin: false,
        syn: true,
        rst: false,
        ack: false,
        window_size: 0,
        checksum: 0,
    };
    assert_eq!(
        Quad::from_headers(&iph, &tcph),
        Quad { src_ip: 0x0A00_0001, src_port: 1234, dst_ip: 0x0A00_0002, dst_port: 443 }
    );
}
