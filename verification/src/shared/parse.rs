//! Sizes as people write them: a decimal number and a unit.

use crate::shared::error::DomainError;
use crate::shared::size::pow1024;
use crate::text::{
    alphabetic, chars_of, is_alphabetic, str_eq, to_uppercase, trim, trimmed, uppercase,
};
use vstd::prelude::*;
use vstd::string::*;

verus! {

/// Ten to the power of `n`.
pub open spec fn pow10(n: nat) -> nat
    decreases n,
{
    if n == 0 {
        1
    } else {
        10 * pow10((n - 1) as nat)
    }
}

/// The number that decimal digits write, most significant digit first.
pub open spec fn number_of(digits: Seq<u8>) -> nat
    decreases digits.len(),
{
    if digits.len() == 0 {
        0
    } else {
        number_of(digits.drop_last()) * 10 + digits.last() as nat
    }
}

/// Whether every item is a decimal digit.
pub open spec fn are_digits(digits: Seq<u8>) -> bool {
    forall|i: int| 0 <= i < digits.len() ==> digits[i] < 10
}

/// Whether a character is one of '0' to '9'.
pub open spec fn is_digit(c: char) -> bool {
    48 <= (c as u32) && (c as u32) <= 57
}

/// The values of characters that are digits.
pub open spec fn digits_of(chars: Seq<char>) -> Seq<u8> {
    chars.map_values(|c: char| ((c as u32) - 48) as u8)
}

/// The first position from `from` on that holds no digit, or the length.
pub open spec fn digits_end(chars: Seq<char>, from: int) -> int
    decreases chars.len() - from,
{
    if from < 0 || from >= chars.len() {
        chars.len() as int
    } else if is_digit(chars[from]) {
        digits_end(chars, from + 1)
    } else {
        from
    }
}

/// The first position from `from` on that holds an alphabetic character,
/// or the length.
pub open spec fn letters_start(chars: Seq<char>, from: int) -> int
    decreases chars.len() - from,
{
    if from < 0 || from >= chars.len() {
        chars.len() as int
    } else if is_alphabetic(chars[from]) {
        from
    } else {
        letters_start(chars, from + 1)
    }
}

/// A decimal number read from characters: whether it has a minus sign, the
/// digits before the point, and the digits behind it. A number is an
/// optional sign, digits, and optionally a point and more digits; digits
/// may be missing on one side of the point, not on both.
pub open spec fn decimal_parts(chars: Seq<char>) -> Option<(bool, Seq<u8>, Seq<u8>)> {
    let signed = chars.len() > 0 && (chars[0] == '+' || chars[0] == '-');
    let start: int = if signed {
        1
    } else {
        0
    };
    let whole_end = digits_end(chars, start);
    let pointed = whole_end < chars.len() && chars[whole_end] == '.';
    let fraction_start = if pointed {
        whole_end + 1
    } else {
        whole_end
    };
    let fraction_end = if pointed {
        digits_end(chars, fraction_start)
    } else {
        whole_end
    };
    if fraction_end == chars.len() && (whole_end - start) + (fraction_end - fraction_start) > 0 {
        Some(
            (
                signed && chars[0] == '-',
                digits_of(chars.subrange(start, whole_end)),
                digits_of(chars.subrange(fraction_start, fraction_end)),
            ),
        )
    } else {
        None
    }
}

/// The power of 1024 that a unit stands for.
pub open spec fn unit_power(unit: Seq<char>) -> Option<nat> {
    if unit == "B"@ {
        Some(0nat)
    } else if unit == "KB"@ {
        Some(1nat)
    } else if unit == "MB"@ {
        Some(2nat)
    } else if unit == "GB"@ {
        Some(3nat)
    } else if unit == "TB"@ {
        Some(4nat)
    } else if unit == "PB"@ {
        Some(5nat)
    } else {
        None
    }
}

/// A number with digits before and behind the point, times a power of
/// 1024, rounded down.
pub open spec fn scaled(whole: Seq<u8>, fraction: Seq<u8>, power: nat) -> nat {
    number_of(whole) * pow1024(power) + number_of(fraction) * pow1024(power) / pow10(
        fraction.len(),
    )
}

/// The size in bytes that a text states, if it states one: the text is
/// trimmed and put in uppercase; what stands before its first alphabetic
/// character is the number, the rest the unit, bytes where there is none;
/// a negative number other than zero states no size; the number times its
/// unit is rounded down, and a size beyond the range of `u64` counts as the
/// greatest one.
pub open spec fn stated_size(size_str: Seq<char>) -> Option<u64> {
    let text = uppercase(trimmed(size_str));
    let split = letters_start(text, 0);
    let unit = if split < text.len() {
        trimmed(text.subrange(split, text.len() as int))
    } else {
        "B"@
    };
    if text.len() == 0 {
        None
    } else {
        match (decimal_parts(trimmed(text.subrange(0, split))), unit_power(unit)) {
            (Some((negative, whole, fraction)), Some(power)) => if negative && (number_of(whole)
                != 0 || number_of(fraction) != 0) {
                None
            } else if scaled(whole, fraction, power) > u64::MAX {
                Some(u64::MAX)
            } else {
                Some(scaled(whole, fraction, power) as u64)
            },
            _ => None,
        }
    }
}

/// Digits written before a number shift by as many places as the number
/// has.
pub proof fn lemma_number_prepend(d: u8, rest: Seq<u8>)
    ensures
        number_of(seq![d] + rest) == d * pow10(rest.len()) + number_of(rest),
    decreases rest.len(),
{
    let all = seq![d] + rest;
    if rest.len() == 0 {
        assert(all.drop_last() =~= Seq::<u8>::empty());
        assert(number_of(all.drop_last()) == 0);
    } else {
        assert(all.drop_last() =~= seq![d] + rest.drop_last());
        lemma_number_prepend(d, rest.drop_last());
        assert(d * pow10(rest.len()) == d * pow10((rest.len() - 1) as nat) * 10)
            by (nonlinear_arith)
            requires
                pow10(rest.len()) == 10 * pow10((rest.len() - 1) as nat),
        ;
    }
}

/// A number of `n` digits is less than ten to the power of `n`.
pub proof fn lemma_number_bound(digits: Seq<u8>)
    requires
        are_digits(digits),
    ensures
        number_of(digits) < pow10(digits.len()),
    decreases digits.len(),
{
    if digits.len() > 0 {
        lemma_number_bound(digits.drop_last());
    }
}

/// Multiplies a number, held as decimal digits, by 1024; the digits keep
/// the lowest places of the product, and the carry is what goes beyond
/// them.
fn times_1024(digits: &mut Vec<u8>) -> (carry: u64)
    requires
        are_digits(old(digits)@),
    ensures
        are_digits(final(digits)@),
        final(digits)@.len() == old(digits)@.len(),
        carry < 1024,
        1024 * number_of(old(digits)@) == carry * pow10(old(digits)@.len()) + number_of(
            final(digits)@,
        ),
{
    let length = digits.len();
    let mut carry: u64 = 0;
    let mut i: usize = length;
    assert(digits@.subrange(i as int, length as int) =~= Seq::<u8>::empty());
    while i > 0
        invariant
            i <= length,
            length == digits@.len(),
            length == old(digits)@.len(),
            are_digits(old(digits)@),
            are_digits(digits@),
            carry < 1024,
            digits@.subrange(0, i as int) == old(digits)@.subrange(0, i as int),
            1024 * number_of(old(digits)@.subrange(i as int, length as int)) == carry * pow10(
                (length - i) as nat,
            ) + number_of(digits@.subrange(i as int, length as int)),
        decreases i,
    {
        let ghost before = digits@;
        let ghost old_tail = old(digits)@.subrange(i as int, length as int);
        let ghost new_tail = digits@.subrange(i as int, length as int);
        let digit = digits[i - 1];
        assert(digit == old(digits)@[i - 1]) by {
            assert(digits@.subrange(0, i as int)[i - 1] == old(digits)@.subrange(0, i as int)[i
                - 1]);
        }
        let product: u64 = digit as u64 * 1024 + carry;
        let kept: u8 = (product % 10) as u8;
        let next_carry: u64 = product / 10;
        digits.set(i - 1, kept);
        proof {
            let places = (length - i) as nat;
            assert(old(digits)@.subrange(i - 1, length as int) =~= seq![digit] + old_tail);
            assert(digits@.subrange(i - 1, length as int) =~= seq![kept] + new_tail);
            lemma_number_prepend(digit, old_tail);
            lemma_number_prepend(kept, new_tail);
            assert(pow10(places + 1) == 10 * pow10(places));
            let p = pow10(places) as int;
            let a = number_of(old_tail) as int;
            let b = number_of(new_tail) as int;
            assert(1024 * (digit * p + a) == next_carry * (10 * p) + (kept * p + b))
                by (nonlinear_arith)
                requires
                    1024 * a == carry * p + b,
                    digit * 1024 + carry == next_carry * 10 + kept,
            ;
            assert(digits@.subrange(0, i - 1) =~= old(digits)@.subrange(0, i - 1)) by {
                assert forall|j: int| 0 <= j < i - 1 implies digits@[j] == old(digits)@[j] by {
                    assert(before.subrange(0, i as int)[j] == old(digits)@.subrange(0, i as int)[j]);
                }
            }
        }
        carry = next_carry;
        i -= 1;
    }
    assert(digits@.subrange(0, length as int) =~= digits@);
    assert(old(digits)@.subrange(0, length as int) =~= old(digits)@);
    carry
}

/// The whole places of a fraction, held as decimal digits behind the
/// point, times a power of 1024.
fn fraction_times(fraction: Vec<u8>, power: u32) -> (r: u64)
    requires
        are_digits(fraction@),
        power <= 5,
    ensures
        r == number_of(fraction@) * pow1024(power as nat) / pow10(fraction@.len()),
        r < pow1024(power as nat),
{
    let ghost start = fraction@;
    let ghost places = pow10(fraction@.len()) as int;
    let mut digits = fraction;
    let mut whole: u64 = 0;
    let mut i: u32 = 0;
    proof {
        lemma_number_bound(start);
        assert(pow1024(0) == 1);
        assert(whole * places == 0) by (nonlinear_arith)
            requires
                whole == 0,
        ;
        assert(number_of(start) * pow1024(0) == number_of(start)) by (nonlinear_arith)
            requires
                pow1024(0) == 1,
        ;
    }
    while i < power
        invariant
            i <= power <= 5,
            digits@.len() == start.len(),
            are_digits(digits@),
            places == pow10(start.len()),
            whole * places + number_of(digits@) == number_of(start) * pow1024(i as nat),
            number_of(digits@) < places,
            whole < pow1024(i as nat),
            pow1024(i as nat) <= 0x4_0000_0000_0000,
        decreases power - i,
    {
        let ghost before = number_of(digits@) as int;
        let carry = times_1024(&mut digits);
        proof {
            lemma_number_bound(digits@);
            reveal_with_fuel(pow1024, 7);
            let after = number_of(digits@) as int;
            let scale = pow1024(i as nat) as int;
            let n = number_of(start) as int;
            assert(pow1024((i + 1) as nat) == 1024 * scale);
            assert((whole * 1024 + carry) * places + after == n * (1024 * scale))
                by (nonlinear_arith)
                requires
                    whole * places + before == n * scale,
                    1024 * before == carry * places + after,
            ;
            assert(whole * 1024 + carry < 1024 * scale) by (nonlinear_arith)
                requires
                    0 <= whole < scale,
                    0 <= carry < 1024,
            ;
        }
        whole = whole * 1024 + carry;
        i += 1;
    }
    proof {
        let n = number_of(start) as int;
        let scale = pow1024(power as nat) as int;
        let rest = number_of(digits@) as int;
        assert((n * scale) / places == whole) by (nonlinear_arith)
            requires
                whole * places + rest == n * scale,
                0 <= rest < places,
        ;
    }
    whole
}

/// The number that digits write, as far as it is below two to the power of
/// 64; that bound itself for every number from it on.
fn capped_number(digits: &Vec<u8>) -> (r: u128)
    requires
        are_digits(digits@),
    ensures
        r == if number_of(digits@) >= 0x1_0000_0000_0000_0000 {
            0x1_0000_0000_0000_0000
        } else {
            number_of(digits@) as int
        },
{
    let mut r: u128 = 0;
    let mut i: usize = 0;
    assert(digits@.subrange(0, 0) =~= Seq::<u8>::empty());
    while i < digits.len()
        invariant
            i <= digits@.len(),
            are_digits(digits@),
            r == if number_of(digits@.subrange(0, i as int)) >= 0x1_0000_0000_0000_0000 {
                0x1_0000_0000_0000_0000
            } else {
                number_of(digits@.subrange(0, i as int)) as int
            },
        decreases digits@.len() - i,
    {
        proof {
            let next = digits@.subrange(0, i + 1);
            assert(next.drop_last() =~= digits@.subrange(0, i as int));
            assert(next.last() == digits@[i as int]);
        }
        let sum: u128 = r * 10 + digits[i] as u128;
        r = if sum >= 0x1_0000_0000_0000_0000 {
            0x1_0000_0000_0000_0000
        } else {
            sum
        };
        i += 1;
    }
    assert(digits@.subrange(0, digits@.len() as int) =~= digits@);
    r
}

/// Whether some digit is not zero.
fn any_nonzero(digits: &Vec<u8>) -> (b: bool)
    requires
        are_digits(digits@),
    ensures
        b == (number_of(digits@) != 0),
{
    let mut i: usize = 0;
    assert(digits@.subrange(0, 0) =~= Seq::<u8>::empty());
    while i < digits.len()
        invariant
            i <= digits@.len(),
            number_of(digits@.subrange(0, i as int)) == 0,
        decreases digits@.len() - i,
    {
        proof {
            let next = digits@.subrange(0, i + 1);
            assert(next.drop_last() =~= digits@.subrange(0, i as int));
            assert(next.last() == digits@[i as int]);
        }
        if digits[i] != 0 {
            proof {
                lemma_later_digits_keep_nonzero(digits@, i + 1);
            }
            return true;
        }
        i += 1;
    }
    assert(digits@.subrange(0, digits@.len() as int) =~= digits@);
    false
}

/// A number that is not zero stays so when more digits follow.
pub proof fn lemma_later_digits_keep_nonzero(digits: Seq<u8>, from: int)
    requires
        0 <= from <= digits.len(),
        number_of(digits.subrange(0, from)) != 0,
    ensures
        number_of(digits) != 0,
    decreases digits.len() - from,
{
    if from < digits.len() {
        let next = digits.subrange(0, from + 1);
        assert(next.drop_last() =~= digits.subrange(0, from));
        lemma_later_digits_keep_nonzero(digits, from + 1);
    } else {
        assert(digits.subrange(0, from) =~= digits);
    }
}

/// Reads the digits from a position on.
fn read_digits(chars: &Vec<char>, from: usize) -> (r: (Vec<u8>, usize))
    requires
        from <= chars@.len(),
    ensures
        r.1 == digits_end(chars@, from as int),
        from <= r.1 <= chars@.len(),
        r.0@ == digits_of(chars@.subrange(from as int, r.1 as int)),
        are_digits(r.0@),
{
    let mut digits: Vec<u8> = Vec::new();
    let mut i: usize = from;
    while i < chars.len() && 48 <= chars[i] as u32 && chars[i] as u32 <= 57
        invariant
            from <= i <= chars@.len(),
            digits_end(chars@, from as int) == digits_end(chars@, i as int),
            digits@ == digits_of(chars@.subrange(from as int, i as int)),
            are_digits(digits@),
        decreases chars@.len() - i,
    {
        digits.push((chars[i] as u32 - 48) as u8);
        assert(digits@ =~= digits_of(chars@.subrange(from as int, i + 1)));
        i += 1;
    }
    (digits, i)
}

/// Reads a decimal number.
fn read_decimal(chars: &Vec<char>) -> (r: Option<(bool, Vec<u8>, Vec<u8>)>)
    ensures
        match r {
            Some((negative, whole, fraction)) => decimal_parts(chars@) == Some(
                (negative, whole@, fraction@),
            ) && are_digits(whole@) && are_digits(fraction@),
            None => decimal_parts(chars@) is None,
        },
{
    let signed = chars.len() > 0 && (chars[0] == '+' || chars[0] == '-');
    let start: usize = if signed {
        1
    } else {
        0
    };
    let (whole, whole_end) = read_digits(chars, start);
    let pointed = whole_end < chars.len() && chars[whole_end] == '.';
    let (fraction, fraction_end) = if pointed {
        read_digits(chars, whole_end + 1)
    } else {
        assert(chars@.subrange(whole_end as int, whole_end as int) =~= Seq::<char>::empty());
        (Vec::new(), whole_end)
    };
    if fraction_end != chars.len() || whole.len() + fraction.len() == 0 {
        return None;
    }
    Some((signed && chars[0] == '-', whole, fraction))
}

fn unit_power_of(unit: &str) -> (r: Option<u32>)
    ensures
        match r {
            Some(power) => unit_power(unit@) == Some(power as nat) && power <= 5,
            None => unit_power(unit@) is None,
        },
{
    if str_eq(unit, "B") {
        Some(0)
    } else if str_eq(unit, "KB") {
        Some(1)
    } else if str_eq(unit, "MB") {
        Some(2)
    } else if str_eq(unit, "GB") {
        Some(3)
    } else if str_eq(unit, "TB") {
        Some(4)
    } else if str_eq(unit, "PB") {
        Some(5)
    } else {
        None
    }
}

fn power_of_1024(power: u32) -> (r: u128)
    requires
        power <= 5,
    ensures
        r == pow1024(power as nat),
        1 <= r <= 0x4_0000_0000_0000,
{
    proof {
        reveal_with_fuel(pow1024, 7);
    }
    if power == 0 {
        1
    } else if power == 1 {
        0x400
    } else if power == 2 {
        0x10_0000
    } else if power == 3 {
        0x4000_0000
    } else if power == 4 {
        0x100_0000_0000
    } else {
        0x4_0000_0000_0000
    }
}

/// Parses a human-readable size to bytes. Fails with `InvalidInput` exactly
/// when the text states no size.
pub fn parse_size_string(size_str: &str) -> (r: Result<u64, DomainError>)
    ensures
        match stated_size(size_str@) {
            Some(size) => r == Ok::<u64, DomainError>(size),
            None => r matches Err(DomainError::InvalidInput(_)),
        },
{
    let trimmed_input = trim(size_str);
    let text = to_uppercase(trimmed_input.as_str());
    let chars = chars_of(text.as_str());
    if chars.len() == 0 {
        return Err(DomainError::InvalidInput(String::from_str("Empty size string")));
    }
    let mut split: usize = 0;
    while split < chars.len() && !alphabetic(chars[split])
        invariant
            split <= chars@.len(),
            letters_start(chars@, 0) == letters_start(chars@, split as int),
        decreases chars@.len() - split,
    {
        split += 1;
    }
    let number_text = trim(text.as_str().substring_char(0, split));
    let unit_text = if split < chars.len() {
        trim(text.as_str().substring_char(split, chars.len()))
    } else {
        String::from_str("B")
    };
    let number_chars = chars_of(number_text.as_str());
    let (negative, whole, fraction) = match read_decimal(&number_chars) {
        Some(parts) => parts,
        None => {
            return Err(DomainError::InvalidInput(String::from_str("Invalid number in size string")));
        },
    };
    let power = match unit_power_of(unit_text.as_str()) {
        Some(power) => power,
        None => {
            return Err(DomainError::InvalidInput(String::from_str("Unknown unit")));
        },
    };
    if negative && (any_nonzero(&whole) || any_nonzero(&fraction)) {
        return Err(DomainError::InvalidInput(String::from_str("Size cannot be negative")));
    }
    let unit = power_of_1024(power);
    let capped = capped_number(&whole);
    let ghost exact = number_of(whole@) as int;
    let behind = fraction_times(fraction, power);
    assert(capped * unit <= 0x1_0000_0000_0000_0000 * 0x4_0000_0000_0000) by (nonlinear_arith)
        requires
            0 <= capped <= 0x1_0000_0000_0000_0000,
            0 <= unit <= 0x4_0000_0000_0000,
    ;
    let total: u128 = capped * unit + behind as u128;
    proof {
        if exact >= 0x1_0000_0000_0000_0000 {
            assert(exact * unit >= 0x1_0000_0000_0000_0000) by (nonlinear_arith)
                requires
                    exact >= 0x1_0000_0000_0000_0000,
                    unit >= 1,
            ;
            assert(capped * unit >= 0x1_0000_0000_0000_0000) by (nonlinear_arith)
                requires
                    capped == 0x1_0000_0000_0000_0000,
                    unit >= 1,
            ;
        }
    }
    if total > u64::MAX as u128 {
        Ok(u64::MAX)
    } else {
        Ok(total as u64)
    }
}

} // verus!
