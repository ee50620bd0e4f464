//! The times in the log and in reports, written with the `time` crate.

use crate::diagnostics::report::{is_time_char, timestamp_words};
use crate::text::{all_chars, byte_length_of_ascii};
use vstd::prelude::*;
use vstd::string::*;

verus! {

/// The nanoseconds in a second.
pub const NANOSECONDS: i128 = 1_000_000_000;

/// The beginning of the year 0, in seconds since 1970.
pub const FIRST_SECOND: i128 = -62_167_219_200;

/// The beginning of the year 10000, in seconds since 1970.
pub const END_SECOND: i128 = 253_402_300_800;

/// Whether a time, in nanoseconds since 1970, is in a year of four digits.
pub open spec fn in_four_digit_years(nanoseconds: i128) -> bool {
    FIRST_SECOND * NANOSECONDS <= nanoseconds < END_SECOND * NANOSECONDS
}

/// How `time` writes a time, in nanoseconds since 1970, by RFC 3339.
pub uninterp spec fn rfc3339(nanoseconds: i128) -> Seq<char>;

/// `time::OffsetDateTime::format` by `Rfc3339`, of a time in UTC that is made
/// from nanoseconds since 1970. There is a text for each year of four digits,
/// and for no other. It consists of the date, a `T`, the time of the day and a
/// `Z`, and is 20 characters long, or up to ten characters longer where the
/// second has begun.
#[verifier::external_body]
fn format_rfc3339(nanoseconds: i128) -> (r: Option<String>)
    ensures
        r is Some <==> in_four_digit_years(nanoseconds),
        r is Some ==> r->0@ == rfc3339(nanoseconds),
        r is Some ==> 20 <= r->0@.len() <= 30,
        r is Some ==> all_chars(r->0@, |c: char| is_time_char(c)),
{
    match time::OffsetDateTime::from_unix_timestamp_nanos(nanoseconds) {
        Ok(at) => at.format(&time::format_description::well_known::Rfc3339).ok(),
        Err(_) => None,
    }
}

/// The text for a time: the one that was made, or else that of the beginning
/// of 1970.
pub fn timestamp_or_epoch(formatted: Option<String>) -> (r: String)
    ensures
        r@ == match formatted {
            Some(text) => text@,
            None => "1970-01-01T00:00:00Z"@,
        },
{
    match formatted {
        Some(text) => text,
        None => String::from_str("1970-01-01T00:00:00Z"),
    }
}

proof fn time_chars_are_ascii(c: char)
    requires
        is_time_char(c),
    ensures
        '\0' <= c <= '\u{7f}',
{
}

/// The text for a time in nanoseconds since 1970. A report shows it as it is.
pub fn timestamp(nanoseconds: i128) -> (r: String)
    ensures
        r@ == if in_four_digit_years(nanoseconds) {
            rfc3339(nanoseconds)
        } else {
            "1970-01-01T00:00:00Z"@
        },
        timestamp_words(r@) == r@,
{
    let formatted = format_rfc3339(nanoseconds);
    proof {
        reveal_strlit("1970-01-01T00:00:00Z");
        let epoch = "1970-01-01T00:00:00Z"@;
        assert(all_chars(epoch, |c: char| is_time_char(c)));
        byte_length_of_ascii(epoch);
        if formatted is Some {
            let text = formatted->0@;
            assert forall|i: int| 0 <= i < text.len() implies '\0' <= #[trigger] text[i]
                <= '\u{7f}' by {
                time_chars_are_ascii(text[i]);
            }
            byte_length_of_ascii(text);
        }
    }
    timestamp_or_epoch(formatted)
}

} // verus!
