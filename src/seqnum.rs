use vstd::prelude::*;

verus! {

/// The modulus of TCP sequence space.
pub const SEQ_SPACE: u64 = 0x1_0000_0000;

/// How far `to` lies ahead of `from` when counting forward in sequence
/// space, in `[0, 2^32)`.
pub open spec fn seq_dist(from: u32, to: u32) -> int {
    if from <= to {
        to - from
    } else {
        to - from + 0x1_0000_0000
    }
}

/// `x` lies in the open circular interval that begins just after `start`
/// and ends just before `end`.
pub open spec fn strictly_between(start: u32, x: u32, end: u32) -> bool {
    0 < seq_dist(start, x) < seq_dist(start, end)
}

/// Decides whether `x` lies strictly between `start` and `end` in
/// wrapping 32-bit sequence space.
pub fn is_x_between(start: u32, x: u32, end: u32) -> (r: bool)
    ensures
        r == strictly_between(start, x, end),
{
    if start == x {
        false
    } else if start < x {
        // `end` falling in `[start, x]` means it has not reached past `x`
        !(start <= end && end <= x)
    } else {
        // `x` has wrapped past zero, so `end` must have wrapped too and
        // stay behind `x`
        x < end && end < start
    }
}

/// An open interval never holds its own bounds: neither `start` nor `end`
/// lies strictly between `start` and `end`.
pub proof fn lemma_bounds_excluded(start: u32, end: u32)
    ensures
        !strictly_between(start, start, end),
        !strictly_between(start, end, end),
{
}

/// When `start` and `end` differ, the values strictly between them are
/// exactly those that are reached by stepping forward from `start` by at
/// least one and fewer than the distance to `end`.
pub proof fn lemma_between_by_steps(start: u32, end: u32, k: u32)
    requires
        start != end,
    ensures
        strictly_between(start, start.wrapping_add(k), end) <==> (0 < k && k < seq_dist(
            start,
            end,
        )),
{
}

} // verus!
