//! Sizes in bytes: in words, and compared.

use crate::text::{decimal, decimal_string, digit_char};
use vstd::prelude::*;
use vstd::string::*;

verus! {

/// 1024 to the power of `k`.
pub open spec fn pow1024(k: nat) -> nat
    decreases k,
{
    if k == 0 {
        1
    } else {
        1024 * pow1024((k - 1) as nat)
    }
}

/// The index of the unit in which a size is written: the largest index, up
/// to `max`, whose unit the size reaches.
pub open spec fn unit_index(size: nat, max: nat) -> nat
    decreases max,
{
    if max == 0 {
        0
    } else if size >= pow1024(max) {
        max
    } else {
        unit_index(size, (max - 1) as nat)
    }
}

/// The name of the unit with a given index.
pub open spec fn unit_name(index: nat) -> Seq<char> {
    if index == 0 {
        "B"@
    } else if index == 1 {
        "KB"@
    } else if index == 2 {
        "MB"@
    } else if index == 3 {
        "GB"@
    } else if index == 4 {
        "TB"@
    } else {
        "PB"@
    }
}

/// A quotient rounded to the nearest whole number, a tie going to the even
/// one.
pub open spec fn round_half_even(n: nat, d: nat) -> nat {
    let q = n / d;
    let r = n % d;
    if 2 * r > d || (2 * r == d && q % 2 == 1) {
        q + 1
    } else {
        q
    }
}

/// A size in words, with units up to the one of index `max`: "0 B" for
/// nothing, whole bytes below 1024, and from there on one decimal place of
/// the size in its unit, rounded to the nearest, a tie going to the even
/// digit.
pub open spec fn size_in_words(size: nat, max: nat) -> Seq<char> {
    let index = unit_index(size, max);
    if index == 0 {
        decimal(size) + " "@ + unit_name(0)
    } else {
        let tenths = round_half_even(size * 10, pow1024(index));
        decimal(tenths / 10) + "."@ + seq![digit_char((tenths % 10) as int)] + " "@ + unit_name(
            index,
        )
    }
}

/// Powers of 1024 grow.
pub proof fn lemma_pow1024_grows(a: nat, b: nat)
    requires
        a <= b,
    ensures
        pow1024(a) <= pow1024(b),
        pow1024(a) >= 1,
    decreases b,
{
    if a < b {
        lemma_pow1024_grows(a, (b - 1) as nat);
    } else if a > 0 {
        lemma_pow1024_grows((a - 1) as nat, (a - 1) as nat);
    }
}

/// A size that reaches the unit of index `k`, and either has no larger unit
/// to reach or does not reach the next one, is written in the unit of
/// index `k`.
pub proof fn lemma_unit_index(size: nat, max: nat, k: nat)
    requires
        k <= max,
        k > 0 ==> size >= pow1024(k),
        k == max || size < pow1024(k + 1),
    ensures
        unit_index(size, max) == k,
    decreases max,
{
    if max > 0 {
        if k == max {
        } else {
            lemma_pow1024_grows(k + 1, max);
            lemma_unit_index(size, (max - 1) as nat, k);
        }
    }
}

fn unit_str(index: usize) -> (s: &'static str)
    ensures
        s@ == unit_name(index as nat),
{
    if index == 0 {
        "B"
    } else if index == 1 {
        "KB"
    } else if index == 2 {
        "MB"
    } else if index == 3 {
        "GB"
    } else if index == 4 {
        "TB"
    } else {
        "PB"
    }
}

/// Writes a size in words, with units up to the one of index `max`.
pub fn format_size(size: u64, max: usize) -> (s: String)
    requires
        max <= 5,
    ensures
        s@ == size_in_words(size as nat, max as nat),
{
    let mut index: usize = 0;
    let mut unit: u128 = 1;
    proof {
        assert(pow1024(0) == 1);
    }
    while index < max && size as u128 / unit >= 1024
        invariant
            index <= max <= 5,
            unit == pow1024(index as nat),
            unit <= 0x4_0000_0000_0000,
            index > 0 ==> size >= pow1024(index as nat),
            1 <= unit,
        decreases max - index,
    {
        proof {
            assert(pow1024((index + 1) as nat) == 1024 * pow1024(index as nat));
            assert(size >= 1024 * unit) by (nonlinear_arith)
                requires
                    size as int / unit as int >= 1024,
                    unit >= 1,
            ;
            if index + 1 <= 5 {
                reveal_with_fuel(pow1024, 7);
                lemma_pow1024_grows((index + 1) as nat, 5);
                assert(pow1024(5) == 0x4_0000_0000_0000);
            }
        }
        unit = unit * 1024;
        index += 1;
    }
    proof {
        if index < max {
            assert(pow1024((index + 1) as nat) == 1024 * pow1024(index as nat));
            assert(size < 1024 * unit) by (nonlinear_arith)
                requires
                    (size as int) / (unit as int) < 1024,
                    unit >= 1,
            ;
        }
        lemma_unit_index(size as nat, max as nat, index as nat);
    }
    if index == 0 {
        let number = decimal_string(size);
        let s = number.concat(" ").concat(unit_str(0));
        s
    } else {
        let scaled: u128 = size as u128 * 10;
        let quotient: u128 = scaled / unit;
        let rest: u128 = scaled % unit;
        let tenths: u128 = if 2 * rest > unit || (2 * rest == unit && quotient % 2 == 1) {
            quotient + 1
        } else {
            quotient
        };
        let whole = decimal_string((tenths / 10) as u64);
        let digit = decimal_string((tenths % 10) as u64);
        proof {
            assert(decimal((tenths % 10) as nat) =~= seq![digit_char((tenths % 10) as int)]);
        }
        let s = whole.concat(".").concat(digit.as_str()).concat(" ").concat(unit_str(index));
        s
    }
}

/// Formats a size in human-readable form, with units up to PB.
pub fn format_bytes(bytes: u64) -> (s: String)
    ensures
        s@ == size_in_words(bytes as nat, 5),
{
    format_size(bytes, 5)
}

/// The percentage by which `compressed` is smaller than `original`, in
/// millionths of a percent, rounded down; zero for an empty original and
/// where nothing was saved.
pub open spec fn spec_savings_percent(original: u64, compressed: u64) -> int {
    if original == 0 || compressed > original {
        0
    } else {
        (original - compressed) * 100_000_000 / (original as int)
    }
}

/// Calculates the percentage reduction between two sizes, in millionths of
/// a percent.
pub fn calculate_savings_percent(original: u64, compressed: u64) -> (r: u32)
    ensures
        r == spec_savings_percent(original, compressed),
        r <= 100_000_000,
{
    if original == 0 {
        return 0;
    }
    if compressed > original {
        return 0;
    }
    let saved: u128 = (original - compressed) as u128;
    assert(saved * 100_000_000 / (original as int) <= 100_000_000) by (nonlinear_arith)
        requires
            0 <= saved <= original,
            original > 0,
    ;
    (saved * 100_000_000 / original as u128) as u32
}

/// Compressed size over original size in millionths, rounded down; zero
/// for an empty original.
pub open spec fn spec_compression_ratio(original: u64, compressed: u64) -> int {
    if original == 0 {
        0
    } else {
        compressed * 1_000_000 / (original as int)
    }
}

/// Calculates the compression ratio, in millionths.
pub fn calculate_compression_ratio(original: u64, compressed: u64) -> (r: u128)
    ensures
        r == spec_compression_ratio(original, compressed),
{
    if original == 0 {
        return 0;
    }
    compressed as u128 * 1_000_000 / original as u128
}

} // verus!
