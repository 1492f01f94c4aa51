use tcp_endpoint::seqnum::{seq_add, seq_between, seq_distance, seq_le, seq_lt};

#[test]
fn unacknowledged_before_next_across_wraparound() {
    let una: u32 = 0xFFFF_FFF0;
    let nxt: u32 = 0x0000_0005;
    assert!(seq_lt(una, nxt));
    assert!(seq_le(una, nxt));
    assert!(!seq_lt(nxt, una));
    assert!(!seq_le(nxt, una));
}

#[test]
fn distance_counts_forward_steps_across_wraparound() {
    assert_eq!(seq_distance(0xFFFF_FFF0, 0x0000_0005), 0x15);
    assert_eq!(seq_distance(0x0000_0005, 0xFFFF_FFF0), 0xFFFF_FFEB);
    assert_eq!(seq_distance(7, 7), 0);
    assert_eq!(seq_distance(1000, 1001), 1);
    assert_eq!(seq_distance(0xFFFF_FFFF, 0), 1);
}

#[test]
fn order_without_wraparound_is_the_usual_order() {
    assert!(seq_lt(1, 2));
    assert!(!seq_lt(2, 1));
    assert!(seq_lt(1000, 1000 + 0x7FFF_FFFF));
    assert!(seq_le(0, 0));
    assert!(seq_le(0, 1));
    assert!(!seq_le(1, 0));
}

#[test]
fn no_number_precedes_itself() {
    for a in [0u32, 1, 0x7FFF_FFFF, 0x8000_0000, 0xFFFF_FFFF] {
        assert!(!seq_lt(a, a));
        assert!(seq_le(a, a));
    }
}

#[test]
fn numbers_half_the_circle_apart_are_not_ordered() {
    assert!(!seq_lt(0, 0x8000_0000));
    assert!(!seq_lt(0x8000_0000, 0));
    assert!(!seq_le(0, 0x8000_0000));
    assert!(!seq_le(0x8000_0000, 0));
    assert!(seq_lt(0, 0x7FFF_FFFF));
    assert!(seq_lt(0x8000_0001, 0));
}

#[test]
fn add_wraps_past_the_largest_number() {
    assert_eq!(seq_add(0xFFFF_FFFF, 1), 0);
    assert_eq!(seq_add(0xFFFF_FFF0, 0x15), 5);
    assert_eq!(seq_add(1000, 1), 1001);
    assert_eq!(seq_add(5, 0), 5);
}

#[test]
fn order_is_kept_when_both_numbers_move() {
    let pairs = [(10u32, 20u32), (0xFFFF_FFF0, 5), (5, 0xFFFF_FFF0), (3, 3)];
    for (a, b) in pairs {
        for k in [0u32, 1, 0x1234_5678, 0xFFFF_FFFF] {
            assert_eq!(seq_lt(seq_add(a, k), seq_add(b, k)), seq_lt(a, b));
            assert_eq!(seq_distance(seq_add(a, k), seq_add(b, k)), seq_distance(a, b));
        }
    }
}

#[test]
fn between_follows_the_arc() {
    assert!(seq_between(10, 10, 20));
    assert!(seq_between(10, 15, 20));
    assert!(seq_between(10, 20, 20));
    assert!(!seq_between(10, 21, 20));
    assert!(!seq_between(10, 9, 20));
    // an arc that crosses the wrap point
    assert!(seq_between(0xFFFF_FFF0, 0xFFFF_FFFF, 5));
    assert!(seq_between(0xFFFF_FFF0, 0, 5));
    assert!(seq_between(0xFFFF_FFF0, 5, 5));
    assert!(!seq_between(0xFFFF_FFF0, 6, 5));
    assert!(!seq_between(0xFFFF_FFF0, 0xFFFF_FFEF, 5));
    // an arc of one point
    assert!(seq_between(7, 7, 7));
    assert!(!seq_between(7, 8, 7));
}
