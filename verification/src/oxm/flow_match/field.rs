//! Byte ranges of the flow match framing.

#![allow(non_snake_case)]

use vstd::prelude::*;

use core::ops::Range;

verus! {

/// `n` rounded up to the next multiple of 8.
pub open spec fn spec_round8(n: int) -> int {
    ((n + 7) / 8) * 8
}

/// The range of the OXM field bytes: after the 4-byte header, up to the
/// declared length.
pub fn OXM_FIELDS(length: usize) -> (r: Range<usize>)
    ensures
        r.start == 4,
        r.end == length,
{
    4..length
}

/// The padding range: from the declared length up to the next multiple of 8.
pub fn PADDING(length: usize) -> (r: Range<usize>)
    requires
        length <= usize::MAX - 7,
    ensures
        r.start == length,
        r.end == spec_round8(length as int),
{
    length..(((length + 7) / 8) * 8)
}

/// Rounding up to 8 adds at most 7, never shrinks, and yields a multiple
/// of 8.
pub proof fn lemma_round8_facts(n: int)
    requires
        n >= 0,
    ensures
        n <= spec_round8(n) < n + 8,
        spec_round8(n) % 8 == 0,
{
    vstd::arithmetic::div_mod::lemma_fundamental_div_mod(n + 7, 8);
    vstd::arithmetic::div_mod::lemma_mod_bound(n + 7, 8);
    let q = (n + 7) / 8;
    vstd::arithmetic::div_mod::lemma_mod_multiples_basic(q, 8);
    assert(q * 8 % 8 == 0) by {
        assert(q * 8 == 8 * q) by (nonlinear_arith);
    }
}

/// Rounding up to 8 is monotonic.
pub proof fn lemma_round8_mono(a: int, b: int)
    requires
        0 <= a <= b,
    ensures
        spec_round8(a) <= spec_round8(b),
{
    vstd::arithmetic::div_mod::lemma_div_is_ordered(a + 7, b + 7, 8);
    vstd::arithmetic::mul::lemma_mul_inequality((a + 7) / 8, (b + 7) / 8, 8);
}

} // verus!
