//! Calls into other crates and into parts of the standard library that
//! have no specification. Verus believes the contracts in this file; it does
//! not prove them.

use crate::text::{without_emoji, EMOJI_PATTERN};
use crate::tools::time::{stamp, ClockReading, TIME_LAYOUT};
use vstd::prelude::*;

verus! {

/// Compiles `pattern` with `regex::Regex::new` and, where it compiles,
/// applies `regex::Regex::replace_all` to `haystack` and `replacement`;
/// `None` where it does not compile. Claimed, for `EMOJI_PATTERN` and an
/// empty replacement only: the pattern compiles, being one class of ranges
/// and single characters followed by `+` and far below the size limit of
/// ten mebibytes; and the text that comes back is the haystack without the
/// characters of that class, which are those of `is_emoji`. Nothing is
/// claimed of other patterns.
#[verifier::external_body]
pub(crate) fn replace_all_matches(pattern: &str, haystack: &str, replacement: &str) -> (out: Option<
    String,
>)
    ensures
        pattern@ == EMOJI_PATTERN@ && replacement@.len() == 0 ==> out is Some && out->Some_0@
            == without_emoji(haystack@),
{
    match regex::Regex::new(pattern) {
        Ok(compiled) => Some(compiled.replace_all(haystack, replacement).into_owned()),
        Err(_) => None,
    }
}

/// The lowercase form of a text, as `str::to_lowercase` gives it.
pub uninterp spec fn lowercase_of(text: Seq<char>) -> Seq<char>;

/// Calls `str::to_lowercase`. Claimed: the result is the text that
/// `lowercase_of` names.
#[verifier::external_body]
pub(crate) fn lowercase(text: &str) -> (lowered: String)
    ensures
        lowered@ == lowercase_of(text@),
{
    text.to_lowercase()
}

/// Reads the local clock with `chrono::Local::now`, takes its local date
/// and time with `chrono::DateTime::naive_local`, and hands out the year,
/// month, day, hour, minute and second, as `chrono::Datelike` and
/// `chrono::Timelike` give them. Claimed: the reading is a date of the
/// Gregorian calendar with a time of day, in a year that chrono's dates
/// hold. The two calls panic where the system clock, the time zone data of
/// the machine or the local time is beyond what chrono represents; no
/// argument decides that.
#[verifier::external_body]
pub(crate) fn read_local_clock() -> (at: ClockReading)
    ensures
        at.representable(),
{
    let now = chrono::Local::now().naive_local();
    ClockReading {
        year: chrono::Datelike::year(&now),
        month: chrono::Datelike::month(&now),
        day: chrono::Datelike::day(&now),
        hour: chrono::Timelike::hour(&now),
        minute: chrono::Timelike::minute(&now),
        second: chrono::Timelike::second(&now),
    }
}

/// The text that chrono's formatting gives for a layout and a date and
/// time; `None` where chrono builds no date and time from the reading or
/// cannot write the layout.
pub uninterp spec fn laid_out(layout: Seq<char>, at: ClockReading) -> Option<Seq<char>>;

/// Builds the date and time with `chrono::NaiveDate::from_ymd_opt` and
/// `chrono::NaiveDate::and_hms_opt`, lays it out with
/// `chrono::NaiveDateTime::format` and writes it with
/// `chrono::format::DelayedFormat::write_to`. Claimed: the outcome is the
/// one that `laid_out` names; a reading that is no date and time, or lies
/// in a year outside chrono's dates, gives `None`; and for `TIME_LAYOUT`,
/// every other reading gives a text, which in a year from 0 to 9999 is the
/// year in four digits and each other number in two, padded with zeros,
/// with the layout's marks between them.
#[verifier::external_body]
pub(crate) fn lay_out(layout: &str, at: ClockReading) -> (text: Option<String>)
    ensures
        match text {
            Some(written) => laid_out(layout@, at) == Some(written@),
            None => laid_out(layout@, at) is None,
        },
        !at.representable() ==> text is None,
        layout@ == TIME_LAYOUT@ && at.representable() ==> text is Some,
        layout@ == TIME_LAYOUT@ && at.wf() && 0 <= at.year <= 9999 ==> text is Some
            && text->Some_0@ == stamp(at),
{
    let date = chrono::NaiveDate::from_ymd_opt(at.year, at.month, at.day)?;
    let moment = date.and_hms_opt(at.hour, at.minute, at.second)?;
    let mut text = String::new();
    match moment.format(layout).write_to(&mut text) {
        Ok(()) => Some(text),
        Err(_) => None,
    }
}

} // verus!
