//! Arithmetic on TCP sequence numbers.
//!
//! Sequence numbers are unsigned 32-bit values that live on a circle: after
//! `0xFFFF_FFFF` comes `0`. Ordering two of them only makes sense when they are
//! less than half the circle apart, and every comparison here is defined through
//! the forward distance from one number to the other.

use vstd::prelude::*;

verus! {

/// The number of points on the sequence-number circle.
pub open spec fn seq_space() -> int {
    0x1_0000_0000
}

/// Half the circle: two numbers closer than this can be ordered.
pub open spec fn seq_half() -> int {
    0x8000_0000
}

/// The number of forward steps that lead from `from` to `to` on the circle.
pub open spec fn offset(from: u32, to: u32) -> int {
    (to - from) % seq_space()
}

/// `a` comes strictly before `b`: `b` is ahead of `a` by less than half the circle.
pub open spec fn precedes(a: u32, b: u32) -> bool {
    0 < offset(a, b) < seq_half()
}

/// `a` is `b` or comes before it.
pub open spec fn precedes_or_equals(a: u32, b: u32) -> bool {
    offset(a, b) < seq_half()
}

/// `x` lies on the arc that starts at `lo` and runs forward to `hi`, ends included.
pub open spec fn within(lo: u32, x: u32, hi: u32) -> bool {
    offset(lo, x) <= offset(lo, hi)
}

/// The sequence number `steps` forward of `a`.
pub open spec fn advance(a: u32, steps: int) -> u32 {
    ((a + steps) % seq_space()) as u32
}

/// The forward distance from `from` to `to`.
pub fn seq_distance(from: u32, to: u32) -> (d: u32)
    ensures
        d == offset(from, to),
{
    to.wrapping_sub(from)
}

/// The sequence number `steps` after `a`, wrapping past `0xFFFF_FFFF` to `0`.
pub fn seq_add(a: u32, steps: u32) -> (r: u32)
    ensures
        r == advance(a, steps as int),
        offset(a, r) == steps,
{
    a.wrapping_add(steps)
}

/// Whether `a` comes strictly before `b`.
pub fn seq_lt(a: u32, b: u32) -> (r: bool)
    ensures
        r == precedes(a, b),
{
    let d: u32 = seq_distance(a, b);
    d != 0 && d < 0x8000_0000
}

/// Whether `a` is `b` or comes before it.
pub fn seq_le(a: u32, b: u32) -> (r: bool)
    ensures
        r == precedes_or_equals(a, b),
{
    seq_distance(a, b) < 0x8000_0000
}

/// Whether `x` lies on the arc from `lo` forward to `hi`, ends included.
pub fn seq_between(lo: u32, x: u32, hi: u32) -> (r: bool)
    ensures
        r == within(lo, x, hi),
{
    seq_distance(lo, x) <= seq_distance(lo, hi)
}

/// The order survives wraparound: a number that lies fewer than half the
/// circle of steps ahead of `a` comes after `a`, also where counting forward
/// from `a` passes `0xFFFF_FFFF` and starts again at `0`.
pub proof fn lemma_order_survives_wraparound(a: u32, steps: u32)
    requires
        0 < steps < seq_half(),
    ensures
        offset(a, advance(a, steps as int)) == steps,
        precedes(a, advance(a, steps as int)),
        !precedes(advance(a, steps as int), a),
        a + steps >= seq_space() ==> advance(a, steps as int) < a,
{
}

/// Between two numbers that are less than half the circle apart as integers,
/// the order on the circle is the order of the integers.
pub proof fn lemma_order_agrees_with_integers(a: u32, b: u32)
    requires
        -seq_half() < b - a < seq_half(),
    ensures
        precedes(a, b) == (a < b),
        precedes_or_equals(a, b) == (a <= b),
        a <= b ==> offset(a, b) == b - a,
{
}

/// The order is strict: no number comes before itself, of two numbers at most
/// one comes before the other, and `precedes_or_equals` adds equality to it.
pub proof fn lemma_order_is_strict(a: u32, b: u32)
    ensures
        !precedes(a, a),
        precedes(a, b) ==> !precedes(b, a),
        precedes_or_equals(a, b) == (a == b || precedes(a, b)),
        offset(a, b) == 0 <==> a == b,
{
}

/// Moving two numbers forward by the same number of steps changes neither
/// their distance nor their order.
pub proof fn lemma_order_is_shift_invariant(a: u32, b: u32, steps: u32)
    ensures
        offset(advance(a, steps as int), advance(b, steps as int)) == offset(a, b),
        precedes(advance(a, steps as int), advance(b, steps as int)) == precedes(a, b),
        precedes_or_equals(advance(a, steps as int), advance(b, steps as int))
            == precedes_or_equals(a, b),
{
}

/// A number on the arc from `lo` to `hi` splits it: the steps from `lo` to `x`
/// and from `x` to `hi` add up to the steps from `lo` to `hi`. So where `hi` is
/// not before `lo`, neither is it before `x`.
pub proof fn lemma_within_splits_arc(lo: u32, x: u32, hi: u32)
    requires
        within(lo, x, hi),
    ensures
        offset(lo, x) + offset(x, hi) == offset(lo, hi),
        precedes_or_equals(lo, hi) ==> precedes_or_equals(lo, x) && precedes_or_equals(x, hi),
{
}

} // verus!
