use voice_turn::mute::MuteGate;
use voice_turn::tools::time::{ClockReading, TimeTool, FIRST_YEAR, LAST_YEAR, TIME_LAYOUT};
use voice_turn::tools::timeout::TimeoutTool;
use voice_turn::tools::ToolError;

#[test]
fn the_clock_tool_describes_itself() {
    assert_eq!(TimeTool::name(), "timetool");
    assert_eq!(TimeTool::description(), "Returns the current time.");
    assert_eq!(TIME_LAYOUT, "%Y-%m-%d][%H:%M:%S");
}

#[test]
fn the_clock_tool_gives_the_time_in_its_layout() {
    let mut tool = TimeTool {};
    let text = tool.call(voice_turn::tools::time::Params {}).unwrap();
    let chars: Vec<char> = text.chars().collect();
    assert_eq!(chars.len(), 20, "{}", text);
    for (index, c) in chars.iter().enumerate() {
        match index {
            4 | 7 => assert_eq!(*c, '-'),
            10 => assert_eq!(*c, ']'),
            11 => assert_eq!(*c, '['),
            14 | 17 => assert_eq!(*c, ':'),
            _ => assert!(c.is_ascii_digit(), "{}", text),
        }
    }
    let month: u32 = text[5..7].parse().unwrap();
    let hour: u32 = text[12..14].parse().unwrap();
    assert!((1..=12).contains(&month));
    assert!(hour < 24);
}

#[test]
fn the_clock_tool_agrees_with_the_clock() {
    let before = chrono::Local::now().format("%Y-%m-%d][%H:%M:%S").to_string();
    let text = TimeTool {}.call(voice_turn::tools::time::Params {}).unwrap();
    let after = chrono::Local::now().format("%Y-%m-%d][%H:%M:%S").to_string();
    assert!(before <= text && text <= after, "{} {} {}", before, text, after);
}

#[test]
fn the_clock_reply_passes_the_text_on() {
    assert_eq!(TimeTool::reply(Some("2024-01-02][03:04:05".to_string())), Ok("2024-01-02][03:04:05".to_string()));
    assert_eq!(TimeTool::reply(None), Err(ToolError::ClockUnreadable));
}

#[test]
fn the_mute_tool_describes_itself() {
    assert_eq!(TimeoutTool::name(), "timeout");
    assert_eq!(
        TimeoutTool::description(),
        "Using this tool will make the chatbot not be able to respond for a certain amount of time."
    );
    assert_eq!(TimeoutTool::MAGIC_WORD, "cat");
}

#[test]
fn the_mute_tool_sets_the_gate_ten_seconds_ahead() {
    let mut tool = TimeoutTool { timeout: MuteGate::new(0) };
    let reply = tool.call(voice_turn::tools::timeout::Params { timeout: 10 }, 5_000);
    assert_eq!(reply, Ok("Timeout set to {} seconds".to_string()));
    assert_eq!(tool.timeout.suppressed_until, 15_000);
}

#[test]
fn the_mute_tool_overwrites_an_earlier_suppression() {
    let mut tool = TimeoutTool { timeout: MuteGate::new(0) };
    tool.call(voice_turn::tools::timeout::Params { timeout: 3_600 }, 1_000).unwrap();
    assert_eq!(tool.timeout.suppressed_until, 3_601_000);
    tool.call(voice_turn::tools::timeout::Params { timeout: 10 }, 2_000).unwrap();
    assert_eq!(tool.timeout.suppressed_until, 12_000);
}

#[test]
fn the_mute_tool_takes_zero_seconds() {
    let mut tool = TimeoutTool { timeout: MuteGate::new(0) };
    tool.call(voice_turn::tools::timeout::Params { timeout: 0 }, 9_000).unwrap();
    assert_eq!(tool.timeout.suppressed_until, 9_000);
    assert!(!tool.timeout.is_suppressed(9_000));
}

#[test]
fn the_mute_tool_refuses_a_deadline_out_of_range() {
    let mut tool = TimeoutTool { timeout: MuteGate::new(77) };
    let reply = tool.call(voice_turn::tools::timeout::Params { timeout: 10 }, u64::MAX - 9_999);
    assert_eq!(reply, Err(ToolError::DeadlineOutOfRange));
    assert_eq!(tool.timeout.suppressed_until, 77);
    let reply = tool.call(voice_turn::tools::timeout::Params { timeout: 10 }, u64::MAX - 10_000);
    assert!(reply.is_ok());
    assert_eq!(tool.timeout.suppressed_until, u64::MAX);
}

fn reading(year: i32, month: u32, day: u32, hour: u32, minute: u32, second: u32) -> ClockReading {
    ClockReading { year, month, day, hour, minute, second }
}

#[test]
fn a_reading_is_reported_in_the_layout() {
    assert_eq!(
        TimeTool::report(reading(2026, 10, 28, 14, 5, 9)),
        Ok("2026-10-28][14:05:09".to_string())
    );
    assert_eq!(
        TimeTool::report(reading(1999, 12, 31, 23, 59, 59)),
        Ok("1999-12-31][23:59:59".to_string())
    );
    assert_eq!(
        TimeTool::report(reading(2000, 1, 1, 0, 0, 0)),
        Ok("2000-01-01][00:00:00".to_string())
    );
}

#[test]
fn short_years_are_padded_to_four_digits() {
    assert_eq!(TimeTool::report(reading(0, 1, 1, 0, 0, 0)), Ok("0000-01-01][00:00:00".to_string()));
    assert_eq!(TimeTool::report(reading(7, 3, 4, 5, 6, 7)), Ok("0007-03-04][05:06:07".to_string()));
    assert_eq!(TimeTool::report(reading(987, 6, 5, 4, 3, 2)), Ok("0987-06-05][04:03:02".to_string()));
    assert_eq!(
        TimeTool::report(reading(9999, 12, 31, 23, 59, 59)),
        Ok("9999-12-31][23:59:59".to_string())
    );
}

#[test]
fn every_reading_of_a_four_digit_year_has_twenty_characters() {
    for year in [1000, 1582, 1970, 2024, 2026, 9999] {
        for month in 1..=12u32 {
            for day in [1u32, 15, 28] {
                for (hour, minute, second) in [(0u32, 0u32, 0u32), (9, 5, 1), (23, 59, 59)] {
                    let text = TimeTool::report(reading(year, month, day, hour, minute, second))
                        .unwrap();
                    assert_eq!(text.len(), 20);
                    assert_eq!(
                        text,
                        format!(
                            "{:04}-{:02}-{:02}][{:02}:{:02}:{:02}",
                            year, month, day, hour, minute, second
                        )
                    );
                }
            }
        }
    }
}

#[test]
fn the_last_day_of_february_follows_the_leap_years() {
    assert!(TimeTool::report(reading(2024, 2, 29, 12, 0, 0)).is_ok());
    assert!(TimeTool::report(reading(2000, 2, 29, 12, 0, 0)).is_ok());
    assert_eq!(TimeTool::report(reading(2023, 2, 29, 12, 0, 0)), Err(ToolError::ClockUnreadable));
    assert_eq!(TimeTool::report(reading(1900, 2, 29, 12, 0, 0)), Err(ToolError::ClockUnreadable));
    assert_eq!(TimeTool::report(reading(2024, 2, 30, 12, 0, 0)), Err(ToolError::ClockUnreadable));
}

#[test]
fn a_reading_that_is_no_date_and_time_is_unreadable() {
    for bad in [
        reading(2026, 0, 1, 0, 0, 0),
        reading(2026, 13, 1, 0, 0, 0),
        reading(2026, 1, 0, 0, 0, 0),
        reading(2026, 1, 32, 0, 0, 0),
        reading(2026, 4, 31, 0, 0, 0),
        reading(2026, 1, 1, 24, 0, 0),
        reading(2026, 1, 1, 0, 60, 0),
        reading(2026, 1, 1, 0, 0, 60),
    ] {
        assert_eq!(TimeTool::report(bad), Err(ToolError::ClockUnreadable));
    }
}

#[test]
fn years_beyond_four_digits_carry_a_sign() {
    assert_eq!(
        TimeTool::report(reading(10_000, 1, 1, 0, 0, 0)),
        Ok("+10000-01-01][00:00:00".to_string())
    );
    assert_eq!(
        TimeTool::report(reading(-1, 1, 1, 0, 0, 0)),
        Ok("-0001-01-01][00:00:00".to_string())
    );
    assert_eq!(TimeTool::report(reading(i32::MAX, 1, 1, 0, 0, 0)), Err(ToolError::ClockUnreadable));
}

#[test]
fn the_first_and_last_year_are_the_limits() {
    assert_eq!(FIRST_YEAR, -262_143);
    assert_eq!(LAST_YEAR, 262_142);
    assert_eq!(
        TimeTool::report(reading(LAST_YEAR, 12, 31, 23, 59, 59)),
        Ok("+262142-12-31][23:59:59".to_string())
    );
    assert_eq!(
        TimeTool::report(reading(FIRST_YEAR, 1, 1, 0, 0, 0)),
        Ok("-262143-01-01][00:00:00".to_string())
    );
    assert_eq!(
        TimeTool::report(reading(LAST_YEAR + 1, 1, 1, 0, 0, 0)),
        Err(ToolError::ClockUnreadable)
    );
    assert_eq!(
        TimeTool::report(reading(FIRST_YEAR - 1, 12, 31, 0, 0, 0)),
        Err(ToolError::ClockUnreadable)
    );
}

#[test]
fn every_day_of_a_leap_cycle_is_reported_or_refused_by_the_calendar() {
    for year in [1900, 2000, 2023, 2024, 2100] {
        let leap = year % 4 == 0 && (year % 100 != 0 || year % 400 == 0);
        for month in 1..=12u32 {
            let days = match month {
                2 => {
                    if leap {
                        29
                    } else {
                        28
                    }
                }
                4 | 6 | 9 | 11 => 30,
                _ => 31,
            };
            for day in 0..=33u32 {
                let out = TimeTool::report(reading(year, month, day, 12, 0, 0));
                assert_eq!(out.is_ok(), 1 <= day && day <= days, "{}-{}-{}", year, month, day);
            }
        }
    }
}
