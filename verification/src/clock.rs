//! Days, times of day and weekdays as the booking site writes them.

use vstd::prelude::*;
use crate::text::text_of;
use chrono::Datelike;

verus! {

/// A day of the week.
#[derive(Clone, Copy, Debug, PartialEq, Eq, Structural)]
pub enum Weekday {
    Mon,
    Tue,
    Wed,
    Thu,
    Fri,
    Sat,
    Sun,
}

impl Weekday {
    /// The day before this one, as a value of specifications.
    pub open spec fn spec_pred(self) -> Weekday {
        match self {
            Weekday::Mon => Weekday::Sun,
            Weekday::Tue => Weekday::Mon,
            Weekday::Wed => Weekday::Tue,
            Weekday::Thu => Weekday::Wed,
            Weekday::Fri => Weekday::Thu,
            Weekday::Sat => Weekday::Fri,
            Weekday::Sun => Weekday::Sat,
        }
    }

    /// The day before this one.
    #[verifier::when_used_as_spec(spec_pred)]
    pub fn pred(self) -> (day: Weekday)
        ensures
            day == self.spec_pred(),
    {
        match self {
            Weekday::Mon => Weekday::Sun,
            Weekday::Tue => Weekday::Mon,
            Weekday::Wed => Weekday::Tue,
            Weekday::Thu => Weekday::Wed,
            Weekday::Fri => Weekday::Thu,
            Weekday::Sat => Weekday::Fri,
            Weekday::Sun => Weekday::Sat,
        }
    }
}

/// The character of a decimal digit.
pub open spec fn digit(value: int) -> char {
    if value == 0 {
        '0'
    } else if value == 1 {
        '1'
    } else if value == 2 {
        '2'
    } else if value == 3 {
        '3'
    } else if value == 4 {
        '4'
    } else if value == 5 {
        '5'
    } else if value == 6 {
        '6'
    } else if value == 7 {
        '7'
    } else if value == 8 {
        '8'
    } else {
        '9'
    }
}

/// A number below one hundred in two digits.
pub open spec fn two_digits(value: int) -> Seq<char> {
    seq![digit(value / 10), digit(value % 10)]
}

/// A number below ten thousand in four digits.
pub open spec fn four_digits(value: int) -> Seq<char> {
    two_digits(value / 100) + two_digits(value % 100)
}

fn digit_char(value: u32) -> (c: char)
    requires
        value < 10,
    ensures
        c == digit(value as int),
{
    if value == 0 {
        '0'
    } else if value == 1 {
        '1'
    } else if value == 2 {
        '2'
    } else if value == 3 {
        '3'
    } else if value == 4 {
        '4'
    } else if value == 5 {
        '5'
    } else if value == 6 {
        '6'
    } else if value == 7 {
        '7'
    } else if value == 8 {
        '8'
    } else {
        '9'
    }
}

fn push_two_digits(out: &mut Vec<char>, value: u32)
    requires
        value < 100,
    ensures
        final(out)@ == old(out)@ + two_digits(value as int),
{
    out.push(digit_char(value / 10));
    out.push(digit_char(value % 10));
}

/// A calendar date by year, month and day of the month.
///
/// The fields are held to the ranges that the site's date formats can
/// write: a year of four digits, a month from 1 to 12, a day from 1 to 31.
/// Whether the month has that day is not decided here.
#[derive(Clone, Copy, Debug, PartialEq, Eq, Structural)]
pub struct Date {
    year: i32,
    month: u32,
    day: u32,
}

/// The ranges a date's fields are held to.
pub open spec fn date_in_range(year: int, month: int, day: int) -> bool {
    &&& 0 <= year <= 9999
    &&& 1 <= month <= 12
    &&& 1 <= day <= 31
}

/// A date as `YYYY-MM-DD`.
pub open spec fn iso_text(year: int, month: int, day: int) -> Seq<char> {
    four_digits(year) + seq!['-'] + two_digits(month) + seq!['-'] + two_digits(day)
}

/// A date as `DD/MM/YYYY`.
pub open spec fn day_first_text(year: int, month: int, day: int) -> Seq<char> {
    two_digits(day) + seq!['/'] + two_digits(month) + seq!['/'] + four_digits(year)
}

impl Date {
    #[verifier::type_invariant]
    spec fn in_range(self) -> bool {
        date_in_range(self.year as int, self.month as int, self.day as int)
    }

    pub closed spec fn spec_year(&self) -> i32 {
        self.year
    }

    pub closed spec fn spec_month(&self) -> u32 {
        self.month
    }

    pub closed spec fn spec_day(&self) -> u32 {
        self.day
    }

    /// The date written as `YYYY-MM-DD`.
    pub open spec fn iso(&self) -> Seq<char> {
        iso_text(self.spec_year() as int, self.spec_month() as int, self.spec_day() as int)
    }

    /// The date written as `DD/MM/YYYY`.
    pub open spec fn day_first(&self) -> Seq<char> {
        day_first_text(self.spec_year() as int, self.spec_month() as int, self.spec_day() as int)
    }

    /// The date with these fields, as a value of specifications.
    pub closed spec fn of(year: i32, month: u32, day: u32) -> Date {
        Date { year, month, day }
    }

    /// A date made of fields has those fields.
    pub proof fn fields_of(year: i32, month: u32, day: u32)
        ensures
            Date::of(year, month, day).spec_year() == year,
            Date::of(year, month, day).spec_month() == month,
            Date::of(year, month, day).spec_day() == day,
    {
    }

    /// The date with these fields, where they are in range.
    pub fn new(year: i32, month: u32, day: u32) -> (date: Option<Date>)
        ensures
            date == if date_in_range(year as int, month as int, day as int) {
                Some(Date::of(year, month, day))
            } else {
                None
            },
            date matches Some(d) ==> d.spec_year() == year && d.spec_month() == month
                && d.spec_day() == day,
    {
        if 0 <= year && year <= 9999 && 1 <= month && month <= 12 && 1 <= day && day <= 31 {
            Some(Date { year, month, day })
        } else {
            None
        }
    }

    #[verifier::when_used_as_spec(spec_year)]
    pub fn year(&self) -> (year: i32)
        ensures
            year == self.spec_year(),
            0 <= year <= 9999,
    {
        proof {
            use_type_invariant(self);
        }
        self.year
    }

    #[verifier::when_used_as_spec(spec_month)]
    pub fn month(&self) -> (month: u32)
        ensures
            month == self.spec_month(),
            1 <= month <= 12,
    {
        proof {
            use_type_invariant(self);
        }
        self.month
    }

    #[verifier::when_used_as_spec(spec_day)]
    pub fn day(&self) -> (day: u32)
        ensures
            day == self.spec_day(),
            1 <= day <= 31,
    {
        proof {
            use_type_invariant(self);
        }
        self.day
    }

    /// The date as the calendar endpoint takes it: `YYYY-MM-DD`.
    pub fn to_iso(&self) -> (text: String)
        ensures
            text@ == self.iso(),
    {
        proof {
            use_type_invariant(self);
        }
        let year: u32 = self.year as u32;
        let mut out: Vec<char> = Vec::new();
        push_two_digits(&mut out, year / 100);
        push_two_digits(&mut out, year % 100);
        out.push('-');
        push_two_digits(&mut out, self.month);
        out.push('-');
        push_two_digits(&mut out, self.day);
        text_of(&out)
    }

    /// The date as the site shows it in a list of bookings: `DD/MM/YYYY`.
    pub fn to_day_first(&self) -> (text: String)
        ensures
            text@ == self.day_first(),
    {
        proof {
            use_type_invariant(self);
        }
        let year: u32 = self.year as u32;
        let mut out: Vec<char> = Vec::new();
        push_two_digits(&mut out, self.day);
        out.push('/');
        push_two_digits(&mut out, self.month);
        out.push('/');
        push_two_digits(&mut out, year / 100);
        push_two_digits(&mut out, year % 100);
        text_of(&out)
    }
}

/// A time of day by hour, minute, second and nanosecond.
///
/// The hour is below 24, the minute and the second below 60. The
/// nanosecond is below a thousand million, but in second 59, where up to
/// twice as much stands for a leap second.
#[derive(Clone, Copy, Debug, PartialEq, Eq, Structural)]
pub struct TimeOfDay {
    hour: u32,
    minute: u32,
    second: u32,
    nanosecond: u32,
}

/// Nanoseconds in a second.
pub const SECOND_NANOS: u32 = 1_000_000_000;

/// The ranges of the hour, the minute, the second and the nanosecond.
pub open spec fn time_in_range(hour: int, minute: int, second: int, nanosecond: int) -> bool {
    &&& 0 <= hour < 24
    &&& 0 <= minute < 60
    &&& 0 <= second < 60
    &&& 0 <= nanosecond < 2 * SECOND_NANOS
    &&& nanosecond >= SECOND_NANOS ==> second == 59
}

/// A time of day as chrono writes it: `HH:MM:SS`, and the part of a second
/// where there is one.
pub uninterp spec fn time_written(hour: u32, minute: u32, second: u32, nanosecond: u32) -> Seq<
    char,
>;

/// Writes a time of day with chrono's `Display` for `NaiveTime`, made by
/// `NaiveTime::from_hms_nano_opt`.
///
/// `from_hms_nano_opt` makes a time of exactly the fields that are in range;
/// the result is what `to_string` gives for it.
#[verifier::external_body]
fn write_time(hour: u32, minute: u32, second: u32, nanosecond: u32) -> (text: String)
    requires
        time_in_range(hour as int, minute as int, second as int, nanosecond as int),
    ensures
        text@ == time_written(hour, minute, second, nanosecond),
{
    chrono::NaiveTime::from_hms_nano_opt(hour, minute, second, nanosecond).unwrap().to_string()
}

/// A time as `HH:MM`.
pub open spec fn hour_minute_text(hour: int, minute: int) -> Seq<char> {
    two_digits(hour) + seq![':'] + two_digits(minute)
}

impl TimeOfDay {
    #[verifier::type_invariant]
    spec fn in_range(self) -> bool {
        time_in_range(
            self.hour as int,
            self.minute as int,
            self.second as int,
            self.nanosecond as int,
        )
    }

    pub closed spec fn spec_hour(&self) -> u32 {
        self.hour
    }

    pub closed spec fn spec_minute(&self) -> u32 {
        self.minute
    }

    pub closed spec fn spec_second(&self) -> u32 {
        self.second
    }

    pub closed spec fn spec_nanosecond(&self) -> u32 {
        self.nanosecond
    }

    /// Whether the fields are in their ranges, as those of every time of
    /// day that was made are.
    pub open spec fn valid(&self) -> bool {
        time_in_range(
            self.spec_hour() as int,
            self.spec_minute() as int,
            self.spec_second() as int,
            self.spec_nanosecond() as int,
        )
    }

    /// The time written as `HH:MM`, as a cell of the calendar shows it.
    pub open spec fn label(&self) -> Seq<char> {
        hour_minute_text(self.spec_hour() as int, self.spec_minute() as int)
    }

    /// The time with these fields, where they are in range.
    pub fn new(hour: u32, minute: u32, second: u32, nanosecond: u32) -> (time: Option<TimeOfDay>)
        ensures
            time.is_some() == time_in_range(
                hour as int,
                minute as int,
                second as int,
                nanosecond as int,
            ),
            time matches Some(t) ==> t.spec_hour() == hour && t.spec_minute() == minute
                && t.spec_second() == second && t.spec_nanosecond() == nanosecond,
    {
        if hour < 24 && minute < 60 && second < 60 && nanosecond < 2 * SECOND_NANOS && (nanosecond
            < SECOND_NANOS || second == 59) {
            Some(TimeOfDay { hour, minute, second, nanosecond })
        } else {
            None
        }
    }

    #[verifier::when_used_as_spec(spec_hour)]
    pub fn hour(&self) -> (hour: u32)
        ensures
            hour == self.spec_hour(),
            hour < 24,
    {
        proof {
            use_type_invariant(self);
        }
        self.hour
    }

    #[verifier::when_used_as_spec(spec_minute)]
    pub fn minute(&self) -> (minute: u32)
        ensures
            minute == self.spec_minute(),
            minute < 60,
    {
        proof {
            use_type_invariant(self);
        }
        self.minute
    }

    #[verifier::when_used_as_spec(spec_second)]
    pub fn second(&self) -> (second: u32)
        ensures
            second == self.spec_second(),
            second < 60,
    {
        proof {
            use_type_invariant(self);
        }
        self.second
    }

    #[verifier::when_used_as_spec(spec_nanosecond)]
    pub fn nanosecond(&self) -> (nanosecond: u32)
        ensures
            nanosecond == self.spec_nanosecond(),
    {
        self.nanosecond
    }

    /// The time written in full, as a value of specifications.
    pub open spec fn text(&self) -> Seq<char> {
        time_written(
            self.spec_hour(),
            self.spec_minute(),
            self.spec_second(),
            self.spec_nanosecond(),
        )
    }

    /// The time written in full, as chrono writes it.
    pub fn to_text(&self) -> (text: String)
        ensures
            text@ == self.text(),
    {
        proof {
            use_type_invariant(self);
        }
        write_time(self.hour, self.minute, self.second, self.nanosecond)
    }

    /// The time as a cell of the calendar shows it: `HH:MM`.
    pub fn to_label(&self) -> (text: String)
        ensures
            text@ == self.label(),
    {
        proof {
            use_type_invariant(self);
        }
        let mut out: Vec<char> = Vec::new();
        push_two_digits(&mut out, self.hour);
        out.push(':');
        push_two_digits(&mut out, self.minute);
        text_of(&out)
    }
}

/// A letter of `A` to `Z` in lower case, and any other character as it is.
pub open spec fn lower_case(c: char) -> char {
    if 'A' <= c <= 'Z' {
        ((c as u8) + 32) as char
    } else {
        c
    }
}

/// A text with its letters of `A` to `Z` in lower case.
pub open spec fn lowered(text: Seq<char>) -> Seq<char> {
    text.map_values(|c: char| lower_case(c))
}

/// The weekday that a text names: in English, by the first three letters
/// or in full, in upper or lower case.
pub open spec fn weekday_named(text: Seq<char>) -> Option<Weekday> {
    let name = lowered(text);
    if name == "mon"@ || name == "monday"@ {
        Some(Weekday::Mon)
    } else if name == "tue"@ || name == "tuesday"@ {
        Some(Weekday::Tue)
    } else if name == "wed"@ || name == "wednesday"@ {
        Some(Weekday::Wed)
    } else if name == "thu"@ || name == "thursday"@ {
        Some(Weekday::Thu)
    } else if name == "fri"@ || name == "friday"@ {
        Some(Weekday::Fri)
    } else if name == "sat"@ || name == "saturday"@ {
        Some(Weekday::Sat)
    } else if name == "sun"@ || name == "sunday"@ {
        Some(Weekday::Sun)
    } else {
        None
    }
}

/// The weekday on which chrono's calendar puts a day, where it has that day.
pub uninterp spec fn weekday_on(year: i32, month: u32, day: u32) -> Option<Weekday>;

/// The day that chrono's calendar puts `days` days after a day, by year,
/// month and day of the month, where it has both days.
pub uninterp spec fn day_after(year: i32, month: u32, day: u32, days: u64) -> Option<
    (i32, u32, u32),
>;

/// The day that chrono reads in a text under a format, by year, month and
/// day of the month, where it reads one.
pub uninterp spec fn date_read(text: Seq<char>, format: Seq<char>) -> Option<(i32, u32, u32)>;

/// Reads a weekday's name with chrono's `FromStr` for `chrono::Weekday`.
///
/// chrono documents that parsing as case-insensitive and as accepting the
/// shortest and the longest form of each English name and no other; its
/// error comes back as `None`.
#[verifier::external_body]
pub(crate) fn parse_weekday(text: &str) -> (day: Option<Weekday>)
    ensures
        day == weekday_named(text@),
{
    match text.parse::<chrono::Weekday>() {
        Ok(chrono::Weekday::Mon) => Some(Weekday::Mon),
        Ok(chrono::Weekday::Tue) => Some(Weekday::Tue),
        Ok(chrono::Weekday::Wed) => Some(Weekday::Wed),
        Ok(chrono::Weekday::Thu) => Some(Weekday::Thu),
        Ok(chrono::Weekday::Fri) => Some(Weekday::Fri),
        Ok(chrono::Weekday::Sat) => Some(Weekday::Sat),
        Ok(chrono::Weekday::Sun) => Some(Weekday::Sun),
        Err(_) => None,
    }
}

/// The weekday of a day, by `chrono::NaiveDate::from_ymd_opt` and
/// `Datelike::weekday`.
///
/// The result is the weekday chrono gives the day, and `None` where
/// `from_ymd_opt` has no such day.
#[verifier::external_body]
pub(crate) fn weekday_of(year: i32, month: u32, day: u32) -> (weekday: Option<Weekday>)
    ensures
        weekday == weekday_on(year, month, day),
{
    match chrono::NaiveDate::from_ymd_opt(year, month, day).map(|d| d.weekday()) {
        Some(chrono::Weekday::Mon) => Some(Weekday::Mon),
        Some(chrono::Weekday::Tue) => Some(Weekday::Tue),
        Some(chrono::Weekday::Wed) => Some(Weekday::Wed),
        Some(chrono::Weekday::Thu) => Some(Weekday::Thu),
        Some(chrono::Weekday::Fri) => Some(Weekday::Fri),
        Some(chrono::Weekday::Sat) => Some(Weekday::Sat),
        Some(chrono::Weekday::Sun) => Some(Weekday::Sun),
        None => None,
    }
}

/// The day a number of days after a day, by
/// `chrono::NaiveDate::checked_add_days`.
///
/// The result is the year, month and day of what that function returns,
/// and `None` where chrono has no such start or no such end.
#[verifier::external_body]
pub(crate) fn date_after(year: i32, month: u32, day: u32, days: u64) -> (later: Option<
    (i32, u32, u32),
>)
    ensures
        later == day_after(year, month, day, days),
{
    chrono::NaiveDate::from_ymd_opt(year, month, day)
        .and_then(|d| d.checked_add_days(chrono::Days::new(days)))
        .map(|d| (d.year(), d.month(), d.day()))
}

/// Reads a day under a format with `chrono::NaiveDate::parse_from_str`.
///
/// The result is the year, month and day of what that function returns,
/// its error as `None`.
#[verifier::external_body]
pub(crate) fn read_date(text: &str, format: &str) -> (date: Option<(i32, u32, u32)>)
    ensures
        date == date_read(text@, format@),
{
    chrono::NaiveDate::parse_from_str(text, format).ok().map(|d| (d.year(), d.month(), d.day()))
}

/// A day and a time of day, with the weekday of the day.
#[derive(Clone, Copy, Debug)]
pub struct Moment {
    date: Date,
    time: TimeOfDay,
    weekday: Weekday,
}

impl Moment {
    #[verifier::type_invariant]
    spec fn weekday_fits(self) -> bool {
        weekday_on(self.date.spec_year(), self.date.spec_month(), self.date.spec_day()) == Some(
            self.weekday,
        )
    }

    pub closed spec fn spec_date(&self) -> Date {
        self.date
    }

    pub closed spec fn spec_time(&self) -> TimeOfDay {
        self.time
    }

    pub closed spec fn spec_weekday(&self) -> Weekday {
        self.weekday
    }

    /// The weekday of `date` as the calendar gives it, as a value of
    /// specifications.
    pub open spec fn weekday_of_date(date: Date) -> Option<Weekday> {
        weekday_on(date.spec_year(), date.spec_month(), date.spec_day())
    }

    /// The moment at `time` on `date`, where the calendar has that day.
    pub fn at(date: Date, time: TimeOfDay) -> (moment: Option<Moment>)
        ensures
            moment.is_some() == Self::weekday_of_date(date).is_some(),
            moment matches Some(m) ==> m.spec_date() == date && m.spec_time() == time && Some(
                m.spec_weekday(),
            ) == Self::weekday_of_date(date),
    {
        match weekday_of(date.year(), date.month(), date.day()) {
            Some(weekday) => Some(Moment { date, time, weekday }),
            None => None,
        }
    }

    #[verifier::when_used_as_spec(spec_date)]
    pub fn date(&self) -> (date: Date)
        ensures
            date == self.spec_date(),
    {
        self.date
    }

    #[verifier::when_used_as_spec(spec_time)]
    pub fn time(&self) -> (time: TimeOfDay)
        ensures
            time == self.spec_time(),
    {
        self.time
    }

    #[verifier::when_used_as_spec(spec_weekday)]
    pub fn weekday(&self) -> (weekday: Weekday)
        ensures
            weekday == self.spec_weekday(),
            Some(weekday) == Self::weekday_of_date(self.spec_date()),
    {
        proof {
            use_type_invariant(self);
        }
        self.weekday
    }
}

} // verus!
