//! Fixed-point arithmetic: fractions held as integers counting millionths.

use vstd::prelude::*;

verus! {

/// Division of integers rounded toward negative infinity.
pub fn floor_div(n: i128, d: i128) -> (r: i128)
    requires
        d > 0,
    ensures
        r == (n as int) / (d as int),
{
    if n >= 0 {
        n / d
    } else {
        let p = -(n + 1);
        let q = p / d;
        assert((n as int) / (d as int) == -q - 1) by (nonlinear_arith)
            requires
                q == (p as int) / (d as int),
                p == -(n + 1),
                p >= 0,
                d > 0,
        ;
        -q - 1
    }
}

/// Percentage by which `compressed` is smaller than `original`, in millionths
/// of a percent, rounded down; zero for an empty original. Negative when the
/// compressed data is the larger.
pub open spec fn savings_percent_micros(original: int, compressed: int) -> int {
    if original > 0 {
        ((original - compressed) * 100_000_000) / original
    } else {
        0
    }
}

/// Computes `savings_percent_micros` for two sizes in bytes.
pub fn savings_percent(original: u64, compressed: u64) -> (r: i128)
    ensures
        r == savings_percent_micros(original as int, compressed as int),
        compressed <= original ==> 0 <= r <= 100_000_000,
        r <= 100_000_000,
{
    if original == 0 {
        0
    } else {
        let diff: i128 = original as i128 - compressed as i128;
        let r = floor_div(diff * 100_000_000, original as i128);
        proof {
            let o = original as int;
            let d = diff as int;
            assert(d <= o);
            assert((d * 100_000_000) / o <= 100_000_000) by (nonlinear_arith)
                requires
                    d <= o,
                    o > 0,
            ;
            if compressed <= original {
                assert((d * 100_000_000) / o >= 0) by (nonlinear_arith)
                    requires
                        d >= 0,
                        o > 0,
                ;
            }
        }
        r
    }
}

/// The value of `i64` nearest to `x`.
pub open spec fn clamp_i64(x: int) -> int {
    if x < i64::MIN {
        i64::MIN as int
    } else if x > i64::MAX {
        i64::MAX as int
    } else {
        x
    }
}

/// Narrows a value to `i64`, saturating at the bounds.
pub fn saturate_i64(x: i128) -> (r: i64)
    ensures
        r == clamp_i64(x as int),
{
    if x < i64::MIN as i128 {
        i64::MIN
    } else if x > i64::MAX as i128 {
        i64::MAX
    } else {
        x as i64
    }
}

/// The share of the original that remains, given a saving in millionths of a
/// percent: `(100 - percent) / 100`, in millionths, rounded down.
pub open spec fn ratio_micros(percent_micros: int) -> int {
    (100_000_000 - percent_micros) / 100
}

} // verus!
