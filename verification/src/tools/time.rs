//! The clock tool: tells the dialogue engine the current local time.

use crate::tools::ToolError;
use crate::trusted::{laid_out, lay_out, read_local_clock};
use vstd::prelude::*;

verus! {

/// How the clock tool lays out the time: year, month and day, then `][`,
/// then hour, minute and second.
pub const TIME_LAYOUT: &'static str = "%Y-%m-%d][%H:%M:%S";

/// The first year that a date can lie in.
pub const FIRST_YEAR: i32 = -262_143;

/// The last year that a date can lie in.
pub const LAST_YEAR: i32 = 262_142;

/// Whether `year` of the Gregorian calendar has a 29th of February.
pub open spec fn is_leap_year(year: int) -> bool {
    year % 4 == 0 && (year % 100 != 0 || year % 400 == 0)
}

/// The number of days of a month, counted from 1, in `year`.
pub open spec fn days_in_month(year: int, month: int) -> int {
    if month == 2 {
        if is_leap_year(year) {
            29
        } else {
            28
        }
    } else if month == 4 || month == 6 || month == 9 || month == 11 {
        30
    } else {
        31
    }
}

/// One reading of a clock: a calendar date and a time of day.
#[derive(Clone, Copy, Debug, PartialEq, Eq, Structural)]
pub struct ClockReading {
    pub year: i32,
    pub month: u32,
    pub day: u32,
    pub hour: u32,
    pub minute: u32,
    pub second: u32,
}

impl ClockReading {
    /// The reading is a day of the Gregorian calendar and a time of that
    /// day.
    pub open spec fn wf(self) -> bool {
        &&& 1 <= self.month <= 12
        &&& 1 <= self.day <= days_in_month(self.year as int, self.month as int)
        &&& self.hour <= 23
        &&& self.minute <= 59
        &&& self.second <= 59
    }

    /// The reading is a date and time in a year that dates can lie in.
    pub open spec fn representable(self) -> bool {
        self.wf() && FIRST_YEAR <= self.year <= LAST_YEAR
    }
}

/// The character for a digit from 0 to 9.
pub open spec fn digit(value: int) -> char {
    if value == 0 {
        '0'
    } else if value == 1 {
        '1'
    } else if value == 2 {
        '2'
    } else if value == 3 {
        '3'
    } else if value == 4 {
        '4'
    } else if value == 5 {
        '5'
    } else if value == 6 {
        '6'
    } else if value == 7 {
        '7'
    } else if value == 8 {
        '8'
    } else {
        '9'
    }
}

/// A number from 0 to 99 in two digits.
pub open spec fn two_digits(value: int) -> Seq<char> {
    seq![digit(value / 10), digit(value % 10)]
}

/// The text of a reading in a year from 0 to 9999, as `TIME_LAYOUT` lays it
/// out: `YYYY-MM-DD][HH:MM:SS`, each number padded with zeros.
pub open spec fn stamp(at: ClockReading) -> Seq<char> {
    two_digits(at.year as int / 100) + two_digits(at.year as int % 100) + seq!['-'] + two_digits(
        at.month as int,
    ) + seq!['-'] + two_digits(at.day as int) + seq![']', '['] + two_digits(at.hour as int)
        + seq![':'] + two_digits(at.minute as int) + seq![':'] + two_digits(at.second as int)
}

/// The dialogue engine can use this tool to get the current local time.
pub struct TimeTool {}

/// The clock tool takes no parameters.
pub struct Params {}

impl TimeTool {
    /// The name under which the dialogue engine knows the tool.
    pub fn name() -> (name: &'static str)
        ensures
            name@ == "timetool"@,
    {
        "timetool"
    }

    /// What the tool does, in words for the dialogue engine.
    pub fn description() -> (description: &'static str)
        ensures
            description@ == "Returns the current time."@,
    {
        "Returns the current time."
    }

    /// What a call returns for each outcome of laying out the time: the
    /// text as it is, or `ClockUnreadable` where there is none.
    pub fn reply(time_text: Option<String>) -> (out: Result<String, ToolError>)
        ensures
            match time_text {
                Some(text) => out == Ok::<String, ToolError>(text),
                None => out == Err::<String, ToolError>(ToolError::ClockUnreadable),
            },
    {
        match time_text {
            Some(text) => Ok(text),
            None => Err(ToolError::ClockUnreadable),
        }
    }

    /// Whether `out` is what the tool reports for the reading `at`. A
    /// representable reading gives its text, laid out as `TIME_LAYOUT` says;
    /// any other gives `ClockUnreadable`. In a year from 0 to 9999 the text
    /// is the twenty characters of `stamp`.
    pub open spec fn reports(out: Result<String, ToolError>, at: ClockReading) -> bool {
        &&& match out {
            Ok(text) => at.representable() && laid_out(TIME_LAYOUT@, at) == Some(text@),
            Err(error) => !at.representable() && error == ToolError::ClockUnreadable,
        }
        &&& at.wf() && 0 <= at.year <= 9999 ==> out is Ok && out->Ok_0@ == stamp(at)
    }

    /// What the tool gives for a reading of the clock.
    pub fn report(at: ClockReading) -> (out: Result<String, ToolError>)
        ensures
            Self::reports(out, at),
    {
        Self::reply(lay_out(TIME_LAYOUT, at))
    }

    /// Gives the current local time, laid out as `TIME_LAYOUT` says: the
    /// report for a reading of the local clock. The reading is representable,
    /// so the call succeeds.
    pub fn call(&mut self, parameters: Params) -> (out: Result<String, ToolError>)
        ensures
            out is Ok,
            exists|at: ClockReading| at.representable() && #[trigger] Self::reports(out, at),
    {
        let at = read_local_clock();
        let out = Self::report(at);
        assert(at.representable() && Self::reports(out, at));
        out
    }
}

/// A reading in a year from 0 to 9999 is reported in twenty characters, with
/// `-` after the year and the month, `][` after the day, and `:` after the
/// hour and the minute.
pub proof fn lemma_stamp_shape(at: ClockReading)
    ensures
        stamp(at).len() == 20,
        stamp(at)[4] == '-',
        stamp(at)[7] == '-',
        stamp(at)[10] == ']',
        stamp(at)[11] == '[',
        stamp(at)[14] == ':',
        stamp(at)[17] == ':',
        stamp(at).subrange(0, 2) == two_digits(at.year as int / 100),
        stamp(at).subrange(2, 4) == two_digits(at.year as int % 100),
        stamp(at).subrange(5, 7) == two_digits(at.month as int),
        stamp(at).subrange(8, 10) == two_digits(at.day as int),
        stamp(at).subrange(12, 14) == two_digits(at.hour as int),
        stamp(at).subrange(15, 17) == two_digits(at.minute as int),
        stamp(at).subrange(18, 20) == two_digits(at.second as int),
{
    let text = stamp(at);
    assert(text.subrange(0, 2) =~= two_digits(at.year as int / 100));
    assert(text.subrange(2, 4) =~= two_digits(at.year as int % 100));
    assert(text.subrange(5, 7) =~= two_digits(at.month as int));
    assert(text.subrange(8, 10) =~= two_digits(at.day as int));
    assert(text.subrange(12, 14) =~= two_digits(at.hour as int));
    assert(text.subrange(15, 17) =~= two_digits(at.minute as int));
    assert(text.subrange(18, 20) =~= two_digits(at.second as int));
}

} // verus!
