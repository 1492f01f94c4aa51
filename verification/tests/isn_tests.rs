use tcp_endpoint::isn::{clock_ticks, initial_sequence_number, siphash, IsnSecret};
use tcp_endpoint::quad::Quad;

const K0: u64 = 0x0706_0504_0302_0100;
const K1: u64 = 0x0f0e_0d0c_0b0a_0908;

fn quad(src_port: u16) -> Quad {
    Quad { src_ip: 0xC0A8_0002, src_port, dst_ip: 0xC0A8_0001, dst_port: 80 }
}

#[test]
fn siphash_matches_the_reference_vector_for_sixteen_bytes() {
    // key 00 01 .. 0f, message 00 01 .. 0f
    let hash = siphash(K0, K1, 0x0706_0504_0302_0100, 0x0f0e_0d0c_0b0a_0908);
    assert_eq!(hash, 0x3f2a_cc7f_57c2_9bdb);
}

#[test]
fn siphash_of_zeroes() {
    assert_eq!(siphash(0, 0, 0, 0), 0x32ca_ecc2_8017_2976);
}

#[test]
fn siphash_depends_on_key_and_message() {
    let h = siphash(K0, K1, 1, 2);
    assert_ne!(h, siphash(K0 ^ 1, K1, 1, 2));
    assert_ne!(h, siphash(K0, K1 ^ 1, 1, 2));
    assert_ne!(h, siphash(K0, K1, 2, 2));
    assert_ne!(h, siphash(K0, K1, 1, 3));
    assert_ne!(h, siphash(K0, K1, 2, 1));
}

#[test]
fn isn_is_clock_plus_low_half_of_the_hash() {
    let secret = IsnSecret { k0: K0, k1: K1 };
    assert_eq!(initial_sequence_number(0, &secret, &quad(40000)), 0x849c_3f5d);
    assert_eq!(initial_sequence_number(12345, &secret, &quad(40000)), 0x849c_6f96);
    // the sum wraps
    assert_eq!(initial_sequence_number(0x7B63_C0A3, &secret, &quad(40000)), 0);
}

#[test]
fn isn_follows_the_clock() {
    let secret = IsnSecret { k0: 0xDEAD_BEEF, k1: 0x1234 };
    let q = quad(40000);
    let base = initial_sequence_number(1000, &secret, &q);
    for d in [0u32, 1, 250, 0x8000_0000, 0xFFFF_FFFF] {
        let later = initial_sequence_number(1000u32.wrapping_add(d), &secret, &q);
        assert_eq!(later.wrapping_sub(base), d);
    }
}

#[test]
fn isn_differs_between_quads_and_between_secrets() {
    let secret = IsnSecret { k0: K0, k1: K1 };
    let a = initial_sequence_number(5, &secret, &quad(40000));
    let b = initial_sequence_number(5, &secret, &quad(40001));
    assert_eq!(b, 5u32.wrapping_add(0x4bba_8ab3));
    assert_ne!(a, b);
    let other = IsnSecret { k0: K0, k1: K1 + 1 };
    assert_ne!(a, initial_sequence_number(5, &other, &quad(40000)));
}

#[test]
fn isn_is_the_same_for_the_same_inputs() {
    let secret = IsnSecret { k0: 77, k1: 88 };
    assert_eq!(
        initial_sequence_number(42, &secret, &quad(1)),
        initial_sequence_number(42, &secret, &quad(1))
    );
}

#[test]
fn clock_ticks_every_four_microseconds() {
    assert_eq!(clock_ticks(0), 0);
    assert_eq!(clock_ticks(3), 0);
    assert_eq!(clock_ticks(4), 1);
    assert_eq!(clock_ticks(7), 1);
    assert_eq!(clock_ticks(1_000_000), 250_000);
}

#[test]
fn clock_starts_again_after_a_full_turn() {
    let turn: u128 = 4 << 32;
    assert_eq!(clock_ticks(turn - 1), u32::MAX);
    assert_eq!(clock_ticks(turn), 0);
    assert_eq!(clock_ticks(turn + 8), 2);
    assert_eq!(clock_ticks(u128::MAX), u32::MAX);
}
