//! The wording of the clock.

use chrono::{DateTime, Locale};
use chrono_tz::Tz;
use vstd::prelude::*;

verus! {

/// How the clock writes a moment: hours, minutes and seconds, then the day
/// of the week, between blanks.
pub const CLOCK_FORMAT: &'static str = " %H:%M:%S %A ";

/// The first second that `chrono` can hold, counted from the start of 1970:
/// the start of the year 262144 before our era.
pub const FIRST_SECOND: i64 = -8_334_601_228_800;

/// The last second that `chrono` can hold, counted from the start of 1970:
/// the end of the year 262142.
pub const LAST_SECOND: i64 = 8_210_266_876_799;

/// Whether the clock can show the moment `unix_seconds` after the start of
/// 1970: every moment that `chrono` can hold.
pub open spec fn clock_shows(unix_seconds: int) -> bool {
    FIRST_SECOND <= unix_seconds <= LAST_SECOND
}

/// The moment `unix_seconds` after the start of 1970 as it is in Hong Kong,
/// written by `chrono` in the way that `format` asks for, with names in
/// Japanese.
pub uninterp spec fn clock_text(unix_seconds: int, format: Seq<char>) -> Seq<char>;

/// Calls `chrono::DateTime::from_timestamp`, `with_timezone` for
/// `chrono_tz::Tz::Asia__Hong_Kong`, and `format_localized` with `format`
/// and the locale `ja_JP`, and writes the result out.
///
/// Trusted: for a moment that `chrono` can hold, and the format of the
/// clock, the text that comes back is what `clock_text` names for the two.
#[verifier::external_body]
fn format_clock(unix_seconds: i64, format: &str) -> (text: String)
    requires
        clock_shows(unix_seconds as int),
        format@ == CLOCK_FORMAT@,
    ensures
        text@ == clock_text(unix_seconds as int, format@),
{
    DateTime::from_timestamp(unix_seconds, 0)
        .unwrap()
        .with_timezone(&Tz::Asia__Hong_Kong)
        .format_localized(format, Locale::ja_JP)
        .to_string()
}

/// What the clock says at the moment `unix_seconds` after the start of
/// 1970, or nothing for a moment that it cannot show.
pub fn clock_string(unix_seconds: i64) -> (text: Option<String>)
    ensures
        text is Some <==> clock_shows(unix_seconds as int),
        text matches Some(t) ==> t@ == clock_text(unix_seconds as int, CLOCK_FORMAT@),
{
    if FIRST_SECOND <= unix_seconds && unix_seconds <= LAST_SECOND {
        Some(format_clock(unix_seconds, CLOCK_FORMAT))
    } else {
        None
    }
}

} // verus!
