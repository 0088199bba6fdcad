use chrono::{DateTime, Datelike, Timelike};
use vstd::prelude::*;

verus! {

/// The first second that chrono's `DateTime<Utc>` can hold (January 1 of year -262143).
pub open spec fn min_timestamp() -> int {
    -8334601228800
}

/// The last second that chrono's `DateTime<Utc>` can hold (December 31 of year 262142).
pub open spec fn max_timestamp() -> int {
    8210266876799
}

/// A number of non-leap seconds since 1970-01-01 00:00:00 UTC that chrono
/// turns into a date and time.
pub open spec fn timestamp_in_range(timestamp: i64) -> bool {
    min_timestamp() <= timestamp <= max_timestamp()
}

/// Whether chrono holds a date for the timestamp, which the functions of
/// this module that read the calendar ask of their callers.
pub fn is_calendar_timestamp(timestamp: i64) -> (supported: bool)
    ensures
        supported == timestamp_in_range(timestamp),
{
    -8334601228800i64 <= timestamp && timestamp <= 8210266876799i64
}

/// The hour of the day (UTC) of a timestamp.
pub open spec fn hour_of(timestamp: i64) -> u32 {
    ((timestamp as int % 86400) / 3600) as u32
}

/// The minute of the hour (UTC) of a timestamp.
pub open spec fn minute_of(timestamp: i64) -> u32 {
    (((timestamp as int % 86400) % 3600) / 60) as u32
}

/// The month (0 for January) of a timestamp, in the proleptic Gregorian
/// calendar, as chrono's `Datelike::month0` gives it.
pub uninterp spec fn utc_month0(timestamp: i64) -> u32;

/// `DateTime::<Utc>::from_timestamp(t, 0)` of chrono, then `Timelike::hour`:
/// the hour of the second `t` of the non-leap UTC time line, that is the
/// remainder of `t` by a day, divided by an hour. chrono returns no date
/// outside its range, which `requires` leaves out.
#[verifier::external_body]
fn utc_hour(timestamp: i64) -> (hour: u32)
    requires
        timestamp_in_range(timestamp),
    ensures
        hour == hour_of(timestamp),
{
    DateTime::from_timestamp(timestamp, 0).unwrap().hour()
}

/// `DateTime::<Utc>::from_timestamp(t, 0)` of chrono, then `Timelike::minute`:
/// the minute within the hour of the second `t` of the UTC time line.
#[verifier::external_body]
fn utc_minute(timestamp: i64) -> (minute: u32)
    requires
        timestamp_in_range(timestamp),
    ensures
        minute == minute_of(timestamp),
{
    DateTime::from_timestamp(timestamp, 0).unwrap().minute()
}

/// `DateTime::<Utc>::from_timestamp(t, 0)` of chrono, then `Datelike::month0`:
/// the month of the date, from 0 to 11 as its documentation says; which month
/// is left to the name `utc_month0`.
#[verifier::external_body]
fn utc_month0_of(timestamp: i64) -> (month0: u32)
    requires
        timestamp_in_range(timestamp),
    ensures
        month0 == utc_month0(timestamp),
        month0 < 12,
{
    DateTime::from_timestamp(timestamp, 0).unwrap().month0()
}

/// The time of the game world, in seconds since 1970-01-01 00:00:00 UTC.
#[derive(Clone, Copy, Debug, PartialEq, Eq, Structural)]
pub struct GameTime(pub i64);

/// The hour of the day.
#[derive(Clone, Copy, Debug, PartialEq, Eq, Structural)]
pub struct Hour(pub u32);

impl GameTime {
    /// Half a minute passes.
    pub fn tick(&mut self)
        requires
            old(self).0 + 30 <= max_timestamp(),
        ensures
            final(self).0 == old(self).0 + 30,
    {
        self.0 = self.0 + 30;
    }
}

/// The hour of the day of the game time.
pub fn current_hour(game_time: &GameTime) -> (hour: Hour)
    requires
        timestamp_in_range(game_time.0),
    ensures
        hour.0 == hour_of(game_time.0),
{
    Hour(utc_hour(game_time.0))
}

/// The decimal digit `d` as a character.
pub open spec fn digit_char(d: nat) -> char {
    if d == 0 { '0' }
    else if d == 1 { '1' }
    else if d == 2 { '2' }
    else if d == 3 { '3' }
    else if d == 4 { '4' }
    else if d == 5 { '5' }
    else if d == 6 { '6' }
    else if d == 7 { '7' }
    else if d == 8 { '8' }
    else { '9' }
}

/// The decimal notation of `n`, as `to_string` writes it.
pub open spec fn decimal(n: nat) -> Seq<char>
    decreases n,
{
    if n < 10 {
        seq![digit_char(n)]
    } else {
        decimal(n / 10) + seq![digit_char(n % 10)]
    }
}

fn digit_str(d: u32) -> (s: &'static str)
    requires
        d < 10,
    ensures
        s@ == seq![digit_char(d as nat)],
{
    proof {
        reveal_strlit("0");
        reveal_strlit("1");
        reveal_strlit("2");
        reveal_strlit("3");
        reveal_strlit("4");
        reveal_strlit("5");
        reveal_strlit("6");
        reveal_strlit("7");
        reveal_strlit("8");
        reveal_strlit("9");
    }
    let s = if d == 0 { "0" }
    else if d == 1 { "1" }
    else if d == 2 { "2" }
    else if d == 3 { "3" }
    else if d == 4 { "4" }
    else if d == 5 { "5" }
    else if d == 6 { "6" }
    else if d == 7 { "7" }
    else if d == 8 { "8" }
    else { "9" };
    proof {
        assert(s@ =~= seq![digit_char(d as nat)]);
    }
    s
}

/// The decimal notation of `n`.
pub fn u32_to_decimal(n: u32) -> (s: String)
    ensures
        s@ == decimal(n as nat),
    decreases n,
{
    if n < 10 {
        String::from_str(digit_str(n))
    } else {
        let mut s = u32_to_decimal(n / 10);
        s.append(digit_str(n % 10));
        s
    }
}

/// The English name of month `month0` (0 for January).
pub open spec fn month_name(month0: u32) -> Seq<char> {
    if month0 == 0 { "January"@ }
    else if month0 == 1 { "February"@ }
    else if month0 == 2 { "March"@ }
    else if month0 == 3 { "April"@ }
    else if month0 == 4 { "May"@ }
    else if month0 == 5 { "June"@ }
    else if month0 == 6 { "July"@ }
    else if month0 == 7 { "August"@ }
    else if month0 == 8 { "September"@ }
    else if month0 == 9 { "October"@ }
    else if month0 == 10 { "November"@ }
    else { "December"@ }
}

/// The English names of the months, January first.
pub open spec fn english_months() -> Seq<Seq<char>> {
    seq![
        "January"@, "February"@, "March"@, "April"@, "May"@, "June"@,
        "July"@, "August"@, "September"@, "October"@, "November"@, "December"@,
    ]
}

/// The month shown for month `m` (0 for January) is the English name of the
/// m-th month of the calendar, so every month gets its own name.
pub proof fn law_month_names_follow_the_calendar(m: u32)
    requires
        m < 12,
    ensures
        month_name(m) == english_months()[m as int],
{
}

fn month_name_str(month0: u32) -> (name: &'static str)
    requires
        month0 < 12,
    ensures
        name@ == month_name(month0),
        name@ == english_months()[month0 as int],
{
    if month0 == 0 { "January" }
    else if month0 == 1 { "February" }
    else if month0 == 2 { "March" }
    else if month0 == 3 { "April" }
    else if month0 == 4 { "May" }
    else if month0 == 5 { "June" }
    else if month0 == 6 { "July" }
    else if month0 == 7 { "August" }
    else if month0 == 8 { "September" }
    else if month0 == 9 { "October" }
    else if month0 == 10 { "November" }
    else { "December" }
}

/// The text of the date display: month name, the hour padded with a space
/// to two places, a colon, and the minute padded with a zero to two places.
pub open spec fn date_time_text(month0: u32, hour: u32, minute: u32) -> Seq<char> {
    month_name(month0) + " "@ + (if hour < 10 { " "@ + decimal(hour as nat) } else { decimal(hour as nat) }) + ":"@
        + (if minute < 10 { "0"@ + decimal(minute as nat) } else { decimal(minute as nat) })
}

pub fn format_date_time(month0: u32, hour: u32, minute: u32) -> (text: String)
    requires
        month0 < 12,
    ensures
        text@ == date_time_text(month0, hour, minute),
{
    let mut text = String::from_str(month_name_str(month0));
    text.append(" ");
    if hour < 10 {
        text.append(" ");
    }
    let h = u32_to_decimal(hour);
    text.append(h.as_str());
    text.append(":");
    if minute < 10 {
        text.append("0");
    }
    let m = u32_to_decimal(minute);
    text.append(m.as_str());
    proof {
        assert(text@ =~= date_time_text(month0, hour, minute));
    }
    text
}

/// The text of the date display for the game time.
pub fn date_time_display_text(game_time: &GameTime) -> (text: String)
    requires
        timestamp_in_range(game_time.0),
    ensures
        text@ == date_time_text(utc_month0(game_time.0), hour_of(game_time.0), minute_of(game_time.0)),
{
    let month0 = utc_month0_of(game_time.0);
    let hour = utc_hour(game_time.0);
    let minute = utc_minute(game_time.0);
    format_date_time(month0, hour, minute)
}

/// The text of the clock tooltip: the hour, a colon, and the minute, where
/// minutes below 9 get a leading zero.
pub open spec fn time_tooltip_text(hour: u32, minute: u32) -> Seq<char> {
    decimal(hour as nat) + ":"@ + (if minute < 9 { "0"@ + decimal(minute as nat) } else { decimal(minute as nat) })
}

pub fn format_time_tooltip(hour: u32, minute: u32) -> (text: String)
    ensures
        text@ == time_tooltip_text(hour, minute),
{
    let mut text = u32_to_decimal(hour);
    text.append(":");
    if minute < 9 {
        text.append("0");
    }
    let m = u32_to_decimal(minute);
    text.append(m.as_str());
    proof {
        assert(text@ =~= time_tooltip_text(hour, minute));
    }
    text
}

/// The text of the clock tooltip for the game time.
pub fn tooltip_text(game_time: &GameTime) -> (text: String)
    requires
        timestamp_in_range(game_time.0),
    ensures
        text@ == time_tooltip_text(hour_of(game_time.0), minute_of(game_time.0)),
{
    let hour = utc_hour(game_time.0);
    let minute = utc_minute(game_time.0);
    format_time_tooltip(hour, minute)
}

/// Which five-minute step of the day the game time is in, rounded to the
/// nearest step: the minute of the day divided by five, halves rounded up.
pub open spec fn sun_interval_of(timestamp: i64) -> u32 {
    ((hour_of(timestamp) * 60 + minute_of(timestamp) + 2) / 5) as u32
}

/// The step of the sun tracker for the game time. The minute of the day is
/// below 1440, so dividing it by five and rounding to the nearest whole
/// number, as the tracker does in floating point, is exact.
pub fn sun_interval_tracker_value(game_time: &GameTime) -> (step: u32)
    requires
        timestamp_in_range(game_time.0),
    ensures
        step == sun_interval_of(game_time.0),
{
    let hour = utc_hour(game_time.0);
    let minute = utc_minute(game_time.0);
    (hour * 60 + minute + 2) / 5
}

/// The clock advances evenly: 120 ticks of half a minute later the hour of
/// the day is one more (past midnight, zero) and the minute is the same.
pub proof fn law_hour_after_one_hour(timestamp: i64)
    requires
        timestamp + 3600 <= max_timestamp(),
    ensures
        hour_of((timestamp + 3600) as i64) == (hour_of(timestamp) + 1) % 24,
        minute_of((timestamp + 3600) as i64) == minute_of(timestamp),
{
    let t = timestamp as int;
    let r = t % 86400;
    assert(0 <= r < 86400);
    let t2 = t + 3600;
    if r + 3600 < 86400 {
        assert(t2 % 86400 == r + 3600);
    } else {
        assert(t2 % 86400 == r + 3600 - 86400);
    }
}

} // verus!
