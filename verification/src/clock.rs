//! The wall-clock timestamp that a line may carry.
//!
//! Reading the clock is the one thing here that is not decided by the
//! arguments of a call, so the rest of the library takes the timestamp as
//! an ordinary text and only this module asks for it.

use vstd::prelude::*;

verus! {

/// The timestamp's layout in chrono's `strftime` syntax: abbreviated month,
/// day of the month, and the time of day on a 24-hour clock to the second.
pub const STAMP_PATTERN: &'static str = "%b %d %H:%M:%S";

/// Number of characters in a timestamp.
pub const STAMP_WIDTH: usize = 15;

/// One of the twelve English month abbreviations.
pub open spec fn is_month_abbreviation(s: Seq<char>) -> bool {
    ||| s == seq!['J', 'a', 'n']
    ||| s == seq!['F', 'e', 'b']
    ||| s == seq!['M', 'a', 'r']
    ||| s == seq!['A', 'p', 'r']
    ||| s == seq!['M', 'a', 'y']
    ||| s == seq!['J', 'u', 'n']
    ||| s == seq!['J', 'u', 'l']
    ||| s == seq!['A', 'u', 'g']
    ||| s == seq!['S', 'e', 'p']
    ||| s == seq!['O', 'c', 't']
    ||| s == seq!['N', 'o', 'v']
    ||| s == seq!['D', 'e', 'c']
}

/// The value of a decimal digit character; meaningful for `'0'` to `'9'`.
pub open spec fn spec_digit_value(c: char) -> int {
    c as u32 as int - 48
}

/// `s` holds two decimal digits at `at` and `at + 1`, and the number they
/// spell lies between `low` and `high`, both included.
pub open spec fn spec_two_digits_within(s: Seq<char>, at: int, low: int, high: int) -> bool {
    let tens = spec_digit_value(s[at]);
    let ones = spec_digit_value(s[at + 1]);
    &&& 0 <= at && at + 1 < s.len()
    &&& 0 <= tens <= 9
    &&& 0 <= ones <= 9
    &&& low <= tens * 10 + ones <= high
}

/// The shape of every timestamp: `Mon DD HH:MM:SS`, as in `Jul 08 00:34:60`.
/// The seconds reach 60 so that a leap second can be written.
pub open spec fn is_clock_stamp(s: Seq<char>) -> bool {
    &&& s.len() == STAMP_WIDTH
    &&& is_month_abbreviation(s.subrange(0, 3))
    &&& s[3] == ' '
    &&& spec_two_digits_within(s, 4, 1, 31)
    &&& s[6] == ' '
    &&& spec_two_digits_within(s, 7, 0, 23)
    &&& s[9] == ':'
    &&& spec_two_digits_within(s, 10, 0, 59)
    &&& s[12] == ':'
    &&& spec_two_digits_within(s, 13, 0, 60)
}

/// The local time of the moment of the call, written after `pattern`.
///
/// Trusted: the body is chrono's `Local::now()` followed by
/// `DateTime::format(pattern)`, and the formatted value collected into a
/// `String`. The contract is stated for `STAMP_PATTERN` alone and repeats
/// what chrono documents for its five specifiers: `%b` is an English
/// three-letter month name, and `%d`, `%H`, `%M`, `%S` are two digits each,
/// zero-padded, within 01-31, 00-23, 00-59 and 00-60; the spaces and colons
/// between them are copied as they stand. Which moment is read is not
/// stated, so two calls may differ. Nothing is claimed for a machine whose
/// clock stands before 1970 or whose time zone cannot be resolved: chrono
/// panics there.
#[verifier::external_body]
pub(crate) fn local_time_text(pattern: &str) -> (stamp: String)
    requires
        pattern@ == STAMP_PATTERN@,
    ensures
        is_clock_stamp(stamp@),
{
    chrono::Local::now().format(pattern).to_string()
}

} // verus!
