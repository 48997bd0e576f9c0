//! The wall clock, as the text that a line shows.

use vstd::prelude::*;

verus! {

/// Whether `c` is a decimal digit.
pub open spec fn is_digit(c: char) -> bool {
    '0' <= c && c <= '9'
}

/// Whether `t` has the shape `HH:MM:SS`: two digits, three times, with a
/// colon between them.
pub open spec fn is_clock_text(t: Seq<char>) -> bool {
    &&& t.len() == 8
    &&& is_digit(t[0])
    &&& is_digit(t[1])
    &&& t[2] == ':'
    &&& is_digit(t[3])
    &&& is_digit(t[4])
    &&& t[5] == ':'
    &&& is_digit(t[6])
    &&& is_digit(t[7])
}

/// The current local time of day.
///
/// Calls `chrono::Local::now()` and formats it with chrono's
/// `DateTime::format` and the pattern `%H:%M:%S`. Trusted: chrono writes
/// each of the three fields as two decimal digits, padded with a zero, and
/// copies the colons of the pattern. Which time it is, is not stated.
#[verifier::external_body]
pub(crate) fn get_timestamp() -> (r: String)
    ensures
        is_clock_text(r@),
{
    chrono::Local::now().format("%H:%M:%S").to_string()
}

} // verus!
