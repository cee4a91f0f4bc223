//! Small numeric utilities.

use vstd::prelude::*;

verus! {

/// The bit-smearing steps turn `x - 1` into a mask of ones below the
/// highest set bit, so one more than the mask is the least power of two
/// that is at least `x`, and the mask keeps that successor a power of two.
proof fn lemma_smear_mask(x: u64, a: u64, b: u64, c: u64, d: u64, e: u64, f: u64, g: u64)
    by (bit_vector)
    requires
        1 <= x <= 0x8000_0000_0000_0000,
        a == x - 1,
        b == a | (a >> 1),
        c == b | (b >> 2),
        d == c | (c >> 4),
        e == d | (d >> 8),
        f == e | (e >> 16),
        g == f | (f >> 32),
    ensures
        g < 0xffff_ffff_ffff_ffff,
        x <= g + 1 < 2 * x,
        ((g + 1) as u64) & g == 0,
{
}

/// Computes the least power of two that is at least `x`, or zero when `x`
/// is zero. The result is pinned down exactly: it lies in `[x, 2x)` and has
/// a single set bit.
pub fn least_power_of_2_greater(x: u64) -> (r: u64)
    requires
        x <= 0x8000_0000_0000_0000,
    ensures
        x == 0 ==> r == 0,
        1 <= x ==> x <= r < 2 * x,
        1 <= x ==> r & ((r - 1) as u64) == 0,
{
    if x < 1 {
        return 0;
    }

    let mut v = x;
    v -= 1;
    let ghost a = v;
    v |= v >> 1;
    let ghost b = v;
    v |= v >> 2;
    let ghost c = v;
    v |= v >> 4;
    let ghost d = v;
    v |= v >> 8;
    let ghost e = v;
    v |= v >> 16;
    let ghost f = v;
    v |= v >> 32;
    proof {
        lemma_smear_mask(x, a, b, c, d, e, f, v);
    }
    v + 1
}

} // verus!
