//! The choice of initial sequence numbers.
//!
//! An initial sequence number is the sum of a clock and a keyed hash of the
//! connection's quad, as RFC 6528 lays out: the clock keeps the numbers of one
//! connection moving, the hash keeps the numbers of different connections
//! apart, and the key keeps an outsider from computing either. The hash is
//! SipHash-2-4.

use vstd::prelude::*;
use crate::quad::Quad;
use crate::seqnum::{advance, offset};

verus! {

/// The secret key under which quads are hashed.
#[derive(Clone, Copy, Debug, PartialEq, Eq, Structural)]
pub struct IsnSecret {
    pub k0: u64,
    pub k1: u64,
}

/// The four words of SipHash's state.
#[derive(Clone, Copy, Debug, PartialEq, Eq, Structural)]
pub struct SipState {
    pub v0: u64,
    pub v1: u64,
    pub v2: u64,
    pub v3: u64,
}

/// `x` rotated left by `r` bits, for `0 < r < 64`.
pub open spec fn rotl(x: u64, r: u64) -> u64 {
    (x << r) | (x >> (64 - r) as u64)
}

/// One SipRound.
pub open spec fn sip_round(s: SipState) -> SipState {
    let v0 = s.v0.wrapping_add(s.v1);
    let v1 = rotl(s.v1, 13) ^ v0;
    let v0 = rotl(v0, 32);
    let v2 = s.v2.wrapping_add(s.v3);
    let v3 = rotl(s.v3, 16) ^ v2;
    let v0 = v0.wrapping_add(v3);
    let v3 = rotl(v3, 21) ^ v0;
    let v2 = v2.wrapping_add(v1);
    let v1 = rotl(v1, 17) ^ v2;
    let v2 = rotl(v2, 32);
    SipState { v0, v1, v2, v3 }
}

/// The state after the message word `m` is taken in: two rounds between the
/// two places where the word is mixed in.
pub open spec fn sip_absorb(s: SipState, m: u64) -> SipState {
    let s = SipState { v3: s.v3 ^ m, ..s };
    let s = sip_round(sip_round(s));
    SipState { v0: s.v0 ^ m, ..s }
}

/// The state that SipHash starts from under the key `k0`, `k1`.
pub open spec fn sip_init(k0: u64, k1: u64) -> SipState {
    SipState {
        v0: k0 ^ 0x736f6d6570736575,
        v1: k1 ^ 0x646f72616e646f6d,
        v2: k0 ^ 0x6c7967656e657261,
        v3: k1 ^ 0x7465646279746573,
    }
}

/// The hash that the state `s` stands for once the whole message is taken in:
/// four more rounds, and the four words folded into one.
pub open spec fn sip_finish(s: SipState) -> u64 {
    let s = SipState { v2: s.v2 ^ 0xff, ..s };
    let s = sip_round(sip_round(sip_round(sip_round(s))));
    s.v0 ^ s.v1 ^ s.v2 ^ s.v3
}

/// SipHash-2-4 under the key `k0`, `k1` of the 16-byte message whose two
/// little-endian words are `m0` and `m1`. The last word that SipHash takes in
/// holds the message's length, 16, in its highest byte.
pub open spec fn siphash_2_4(k0: u64, k1: u64, m0: u64, m1: u64) -> u64 {
    sip_finish(sip_absorb(sip_absorb(sip_absorb(sip_init(k0, k1), m0), m1), 0x1000_0000_0000_0000))
}

/// The first message word of a quad: source address above destination address.
pub open spec fn quad_addresses(quad: Quad) -> u64 {
    (quad.src_ip * 0x1_0000_0000 + quad.dst_ip) as u64
}

/// The second message word of a quad: source port above destination port.
pub open spec fn quad_ports(quad: Quad) -> u64 {
    (quad.src_port * 0x1_0000 + quad.dst_port) as u64
}

/// The keyed hash of a quad.
pub open spec fn quad_hash(secret: IsnSecret, quad: Quad) -> u64 {
    siphash_2_4(secret.k0, secret.k1, quad_addresses(quad), quad_ports(quad))
}

/// The initial sequence number for a connection with quad `quad` that starts
/// when the clock shows `clock`: the clock moved forward by the low 32 bits of
/// the quad's keyed hash.
pub open spec fn isn_for(clock: u32, secret: IsnSecret, quad: Quad) -> u32 {
    advance(clock, (quad_hash(secret, quad) % 0x1_0000_0000) as int)
}

/// `x` rotated left by `r` bits.
fn rotate_left(x: u64, r: u32) -> (y: u64)
    requires
        0 < r < 64,
    ensures
        y == rotl(x, r as u64),
{
    (x << r) | (x >> (64 - r))
}

/// One SipRound on `s`.
fn round(s: SipState) -> (t: SipState)
    ensures
        t == sip_round(s),
{
    let v0: u64 = s.v0.wrapping_add(s.v1);
    let v1: u64 = rotate_left(s.v1, 13) ^ v0;
    let v0: u64 = rotate_left(v0, 32);
    let v2: u64 = s.v2.wrapping_add(s.v3);
    let v3: u64 = rotate_left(s.v3, 16) ^ v2;
    let v0: u64 = v0.wrapping_add(v3);
    let v3: u64 = rotate_left(v3, 21) ^ v0;
    let v2: u64 = v2.wrapping_add(v1);
    let v1: u64 = rotate_left(v1, 17) ^ v2;
    let v2: u64 = rotate_left(v2, 32);
    SipState { v0, v1, v2, v3 }
}

/// Takes the message word `m` into the state `s`.
fn absorb(s: SipState, m: u64) -> (t: SipState)
    ensures
        t == sip_absorb(s, m),
{
    let s = SipState { v0: s.v0, v1: s.v1, v2: s.v2, v3: s.v3 ^ m };
    let s = round(round(s));
    SipState { v0: s.v0 ^ m, v1: s.v1, v2: s.v2, v3: s.v3 }
}

/// SipHash-2-4 under the key `k0`, `k1` of the 16-byte message whose two
/// little-endian words are `m0` and `m1`.
pub fn siphash(k0: u64, k1: u64, m0: u64, m1: u64) -> (h: u64)
    ensures
        h == siphash_2_4(k0, k1, m0, m1),
{
    let s = SipState {
        v0: k0 ^ 0x736f6d6570736575,
        v1: k1 ^ 0x646f72616e646f6d,
        v2: k0 ^ 0x6c7967656e657261,
        v3: k1 ^ 0x7465646279746573,
    };
    let s = absorb(absorb(absorb(s, m0), m1), 0x1000_0000_0000_0000);
    let s = SipState { v0: s.v0, v1: s.v1, v2: s.v2 ^ 0xff, v3: s.v3 };
    let s = round(round(round(round(s))));
    s.v0 ^ s.v1 ^ s.v2 ^ s.v3
}

/// The microseconds that one tick of the clock lasts.
pub const MICROS_PER_TICK: u128 = 4;

/// What the clock shows when `elapsed_micros` microseconds have passed since
/// it started: it ticks once every four microseconds and counts modulo 2^32,
/// so that it runs through all its values in under five hours.
pub fn clock_ticks(elapsed_micros: u128) -> (ticks: u32)
    ensures
        ticks == (elapsed_micros / MICROS_PER_TICK) % 0x1_0000_0000,
{
    ((elapsed_micros / MICROS_PER_TICK) % 0x1_0000_0000) as u32
}

/// Chooses the initial sequence number for a connection with quad `quad` that
/// starts when the clock shows `clock`.
pub fn initial_sequence_number(clock: u32, secret: &IsnSecret, quad: &Quad) -> (isn: u32)
    ensures
        isn == isn_for(clock, *secret, *quad),
{
    let addresses: u64 = quad.src_ip as u64 * 0x1_0000_0000 + quad.dst_ip as u64;
    let ports: u64 = quad.src_port as u64 * 0x1_0000 + quad.dst_port as u64;
    let hash: u64 = siphash(secret.k0, secret.k1, addresses, ports);
    let low: u32 = (hash % 0x1_0000_0000) as u32;
    clock.wrapping_add(low)
}

/// The numbers chosen for one connection follow the clock: between two
/// moments they differ by as much as the clock does. So while the clock
/// advances by less than a full turn, no number is chosen twice.
pub proof fn lemma_isn_follows_clock(earlier: u32, later: u32, secret: IsnSecret, quad: Quad)
    ensures
        offset(isn_for(earlier, secret, quad), isn_for(later, secret, quad)) == offset(
            earlier,
            later,
        ),
        earlier != later ==> isn_for(earlier, secret, quad) != isn_for(later, secret, quad),
{
}

} // verus!
