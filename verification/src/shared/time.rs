//! Time: the clock, and durations in words.

use crate::shared::size::round_half_even;
use crate::text::{decimal, decimal_string, digit_char};
use vstd::prelude::*;
use vstd::string::*;

verus! {

/// Calls `chrono::Utc::now` and `to_rfc3339`: the current time as an ISO 8601
/// string. The result depends on the clock, so nothing is claimed of it.
#[verifier::external_body]
pub fn current_timestamp() -> String {
    ::chrono::Utc::now().to_rfc3339()
}

/// A duration in words: milliseconds below a second; seconds with one
/// decimal place, rounded to the nearest, a tie going to the even digit,
/// below a minute; minutes and seconds below an hour; hours and minutes
/// from there on.
pub open spec fn duration_in_words(ms: u64) -> Seq<char> {
    if ms < 1000 {
        decimal(ms as nat) + "ms"@
    } else if ms < 60000 {
        let tenths = round_half_even(ms as nat, 100);
        decimal(tenths / 10) + "."@ + seq![digit_char((tenths % 10) as int)] + "s"@
    } else if ms < 3600000 {
        decimal((ms / 60000) as nat) + "m "@ + decimal(((ms % 60000) / 1000) as nat) + "s"@
    } else {
        decimal((ms / 3600000) as nat) + "h "@ + decimal(((ms % 3600000) / 60000) as nat) + "m"@
    }
}

/// Formats a duration in milliseconds in human-readable form.
pub fn format_duration_ms(ms: u64) -> (s: String)
    ensures
        s@ == duration_in_words(ms),
{
    if ms < 1000 {
        decimal_string(ms).concat("ms")
    } else if ms < 60000 {
        let quotient = ms / 100;
        let rest = ms % 100;
        let tenths = if 2 * rest > 100 || (2 * rest == 100 && quotient % 2 == 1) {
            quotient + 1
        } else {
            quotient
        };
        let whole = decimal_string(tenths / 10);
        let digit = decimal_string(tenths % 10);
        proof {
            assert(decimal((tenths % 10) as nat) =~= seq![digit_char((tenths % 10) as int)]);
        }
        whole.concat(".").concat(digit.as_str()).concat("s")
    } else if ms < 3600000 {
        let minutes = decimal_string(ms / 60000);
        let seconds = decimal_string((ms % 60000) / 1000);
        minutes.concat("m ").concat(seconds.as_str()).concat("s")
    } else {
        let hours = decimal_string(ms / 3600000);
        let minutes = decimal_string((ms % 3600000) / 60000);
        hours.concat("h ").concat(minutes.as_str()).concat("m")
    }
}

/// The time at which something started, as std's `Instant` holds it.
#[verifier::external_type_specification]
#[verifier::external_body]
pub struct ExInstant(std::time::Instant);

/// Calls `std::time::Instant::now`. Depends on the clock: nothing is
/// claimed of the result.
#[verifier::external_body]
pub(crate) fn start_timer() -> std::time::Instant {
    std::time::Instant::now()
}

/// Calls `std::time::Instant::elapsed` and gives the whole milliseconds of
/// the duration, as far as `u64` holds them. Depends on the clock: nothing
/// is claimed of the result.
#[verifier::external_body]
pub(crate) fn milliseconds_since(start: &std::time::Instant) -> u64 {
    u64::try_from(start.elapsed().as_millis()).unwrap_or(u64::MAX)
}

} // verus!
