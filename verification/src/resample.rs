//! Fractional read cursors for windowed-sinc interpolation.
//!
//! The render loop walks a decoded channel with a fractional cursor.  The
//! cursor is a Q32.32 fixed-point sample index: the upper 32 bits are the
//! integer sample index, the lower 32 bits the fraction between two samples.
//! The interpolation kernel reads a window of `2 * WINDOW_SIZE + 1` taps
//! around the cursor; indices that fall outside the buffer wrap around,
//! matching the looping playback policy of the render loop.
//!
//! The floating-point kernel itself (sinc weights, accumulation and
//! normalisation) is numeric code that the library's callers evaluate; which
//! sample every tap reads, and with which fractional offset, is decided and
//! verified here.

use vstd::prelude::*;

verus! {

use vstd::arithmetic::div_mod::{
    lemma_fundamental_div_mod,
    lemma_mod_add_multiples_vanish,
    lemma_mod_bound,
    lemma_mod_multiples_vanish,
};

/// Number of interpolation taps on each side of the cursor.
pub const WINDOW_SIZE: isize = 24;

/// One whole sample step of a Q32.32 fixed-point cursor.
pub const CURSOR_ONE: u64 = 0x1_0000_0000;

/// Integer part of a fixed-point cursor: the index of the sample at or
/// just before the cursor.
pub open spec fn spec_cursor_floor(pos: u64) -> int {
    pos as int / CURSOR_ONE as int
}

/// Fractional part of a fixed-point cursor, in units of `1 / CURSOR_ONE`
/// of a sample step.
pub open spec fn spec_cursor_frac(pos: u64) -> int {
    pos as int % CURSOR_ONE as int
}

/// Index of the sample at or just before the cursor.
pub fn cursor_floor(pos: u64) -> (r: u64)
    ensures
        r == spec_cursor_floor(pos),
{
    pos / CURSOR_ONE
}

/// Fractional part of the cursor, as the raw Q0.32 fraction.
pub fn cursor_frac(pos: u64) -> (r: u64)
    ensures
        r == spec_cursor_frac(pos),
{
    pos % CURSOR_ONE
}

/// The buffer index a tap at `offset` samples from the cursor's integer
/// index reads, under the wrap-around policy.
pub open spec fn spec_tap_index(pos_floor: int, offset: int, len: int) -> int {
    (pos_floor + offset) % len
}

/// Resolves one interpolation tap to a buffer index, wrapping out-of-range
/// indices around the buffer end (cyclic buffer semantics).
pub fn tap_index(pos_floor: u64, offset: isize, len: usize) -> (r: usize)
    requires
        0 < len,
        len < CURSOR_ONE,
        pos_floor < len,
        -(WINDOW_SIZE as int) <= offset <= WINDOW_SIZE as int,
    ensures
        r == spec_tap_index(pos_floor as int, offset as int, len as int),
        r < len,
{
    let len64 = len as u64;
    if offset >= 0 {
        let sum = pos_floor + (offset as u64);
        let r = (sum % len64) as usize;
        proof {
            lemma_mod_bound(sum as int, len as int);
        }
        r
    } else {
        let k = (-offset) as u64;
        let rem = k % len64;
        let r = if rem == 0 {
            pos_floor as usize
        } else if pos_floor >= rem {
            ((pos_floor - rem) % len64) as usize
        } else {
            (len64 - (rem - pos_floor)) as usize
        };
        proof {
            lemma_tap_index_negative(pos_floor as int, k as int, len as int);
            lemma_mod_bound(pos_floor as int - k as int, len as int);
        }
        r
    }
}

/// How a backwards tap wraps: stepping `k` samples back from `pos_floor`
/// lands `k % len` below it, modulo the buffer length.
proof fn lemma_tap_index_negative(pos_floor: int, k: int, len: int)
    requires
        0 < len,
        0 <= pos_floor < len,
        0 <= k,
    ensures
        k % len == 0 ==> (pos_floor - k) % len == pos_floor,
        k % len != 0 && pos_floor >= k % len ==> (pos_floor - k) % len == (pos_floor - k % len)
            % len,
        k % len != 0 && pos_floor < k % len ==> (pos_floor - k) % len == len - (k % len
            - pos_floor),
{
    let rem = k % len;
    lemma_fundamental_div_mod(k, len);
    // pos_floor - k == pos_floor - rem - len * (k / len)
    vstd::arithmetic::mul::lemma_mul_unary_negation(len, k / len);
    lemma_mod_multiples_vanish(-(k / len), pos_floor - rem, len);
    assert(len * -(k / len) + (pos_floor - rem) == pos_floor - k);
    assert((pos_floor - k) % len == (pos_floor - rem) % len);
    if rem == 0 {
        lemma_mod_bound(pos_floor, len);
        vstd::arithmetic::div_mod::lemma_small_mod(pos_floor as nat, len as nat);
    } else if pos_floor < rem {
        // pos_floor - rem is in (-len, 0); one multiple of len brings it into range.
        lemma_mod_multiples_vanish(1, pos_floor - rem, len);
        vstd::arithmetic::div_mod::lemma_small_mod((pos_floor - rem + len) as nat, len as nat);
    }
}

/// Wrap continuity: a cursor advanced by exactly one buffer length reads
/// the same samples with the same fractional weight.  For any in-range
/// cursor position `pos` (taken here as an unbounded mathematical
/// Q32.32 value), every tap of the interpolation window resolves to the
/// same buffer index at `pos` and at `pos + len` whole samples, and the
/// fractional parts agree, so the interpolated values coincide.
pub proof fn lemma_wrap_continuity(pos: int, len: int, offset: int)
    requires
        0 <= pos,
        0 < len,
    ensures
        (pos + len * CURSOR_ONE) % CURSOR_ONE as int == pos % CURSOR_ONE as int,
        spec_tap_index((pos + len * CURSOR_ONE) / CURSOR_ONE as int, offset, len)
            == spec_tap_index(pos / CURSOR_ONE as int, offset, len),
{
    let one = CURSOR_ONE as int;
    lemma_mod_multiples_vanish(len, pos, one);
    assert((pos + len * one) % one == pos % one);
    lemma_div_multiples_vanish_quotient(pos, len, one);
    assert((pos + len * one) / one == pos / one + len);
    lemma_mod_add_multiples_vanish(pos / one + offset, len);
    assert((pos / one + offset + len) % len == (pos / one + offset) % len);
}

/// Adding `m` multiples of the divisor raises a quotient by exactly `m`.
proof fn lemma_div_multiples_vanish_quotient(x: int, m: int, d: int)
    requires
        0 < d,
        0 <= x,
    ensures
        (x + m * d) / d == x / d + m,
{
    lemma_fundamental_div_mod(x, d);
    lemma_mod_bound(x, d);
    let q = x / d;
    let r = x % d;
    vstd::arithmetic::mul::lemma_mul_is_distributive_add_other_way(d, q, m);
    vstd::arithmetic::mul::lemma_mul_is_commutative(d, q);
    assert(x + m * d == (q + m) * d + r);
    vstd::arithmetic::div_mod::lemma_fundamental_div_mod_converse(x + m * d, d, q + m, r);
}

} // verus!
