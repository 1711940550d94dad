//! When to act: what a wake-up leads to, and the day that is booked.

use vstd::prelude::*;
use crate::clock::{date_after, date_in_range, day_after, Date, Moment, Weekday};

verus! {

/// Seconds slept on a day that is not the eve of the wanted weekday.
pub const COARSE_SECONDS: u64 = 82800;

/// Seconds slept on the eve, before the last hour of the day.
pub const APPROACH_SECONDS: u64 = 3000;

/// Seconds slept in the last hour of the eve, before its last minutes.
pub const ARMED_SECONDS: u64 = 60;

/// The hour at whose end the calendar opens.
pub const OPENING_HOUR: u32 = 23;

/// The minute of that hour from which the opening is watched.
pub const WATCH_MINUTE: u32 = 58;

/// How many days ahead of its opening a day lies.
pub const DAYS_AHEAD: u64 = 15;

/// What a wake-up leads to.
#[derive(Clone, Copy, Debug, PartialEq, Eq, Structural)]
pub enum Decision {
    /// Not the eve: sleep long, ask nothing of the calendar.
    Rest,
    /// The eve, not yet its last hour: sleep fifty minutes.
    Approach,
    /// The last hour of the eve, not yet its last minutes: sleep a minute.
    Arm,
    /// The last minutes of the eve: watch the calendar open, and book.
    Watch,
}

/// What a wake-up on the weekday `today`, at `hour` and `minute`, leads to
/// when the weekday `target` is wanted.
pub open spec fn decision(today: Weekday, hour: u32, minute: u32, target: Weekday) -> Decision {
    if today != target.spec_pred() {
        Decision::Rest
    } else if hour != OPENING_HOUR {
        Decision::Approach
    } else if minute < WATCH_MINUTE {
        Decision::Arm
    } else {
        Decision::Watch
    }
}

/// What a wake-up leads to.
///
/// Off the eve of the wanted weekday it is the long sleep, whatever the
/// time; on the eve it is the sleep of fifty minutes at any hour but 23, the
/// sleep of one minute at 23 before minute 58, and the watch from then on.
pub fn decide(today: Weekday, hour: u32, minute: u32, target: Weekday) -> (next: Decision)
    ensures
        next == decision(today, hour, minute, target),
        today != target.spec_pred() ==> next == Decision::Rest,
        today == target.spec_pred() && hour != 23 ==> next == Decision::Approach,
        today == target.spec_pred() && hour == 23 && minute < 58 ==> next == Decision::Arm,
        today == target.spec_pred() && hour == 23 && minute >= 58 ==> next == Decision::Watch,
{
    if today != target.pred() {
        Decision::Rest
    } else if hour != OPENING_HOUR {
        Decision::Approach
    } else if minute < WATCH_MINUTE {
        Decision::Arm
    } else {
        Decision::Watch
    }
}

/// The seconds to sleep on a decision; none on the watch.
pub open spec fn pause_of(decision: Decision) -> Option<u64> {
    match decision {
        Decision::Rest => Some(COARSE_SECONDS),
        Decision::Approach => Some(APPROACH_SECONDS),
        Decision::Arm => Some(ARMED_SECONDS),
        Decision::Watch => None,
    }
}

/// The seconds to sleep on a decision: 23 hours, 50 minutes or one minute,
/// and none on the watch.
pub fn sleep_seconds(decision: Decision) -> (pause: Option<u64>)
    ensures
        pause == pause_of(decision),
{
    match decision {
        Decision::Rest => Some(COARSE_SECONDS),
        Decision::Approach => Some(APPROACH_SECONDS),
        Decision::Arm => Some(ARMED_SECONDS),
        Decision::Watch => None,
    }
}

/// The day booked by a watch that starts on `date`: the day fifteen days
/// later in chrono's calendar, where it is one that a date can hold.
pub open spec fn target_of(date: Date) -> Option<Date> {
    match day_after(date.spec_year(), date.spec_month(), date.spec_day(), DAYS_AHEAD) {
        Some((year, month, day)) => if date_in_range(year as int, month as int, day as int) {
            Some(Date::of(year, month, day))
        } else {
            None
        },
        None => None,
    }
}

/// The day booked by a watch that starts at `now`: the day fifteen days
/// after the day of `now`. The time of day has no part in it.
pub fn target_date(now: &Moment) -> (target: Option<Date>)
    ensures
        target == target_of(now.spec_date()),
{
    let date = now.date();
    match date_after(date.year(), date.month(), date.day(), DAYS_AHEAD) {
        Some((year, month, day)) => Date::new(year, month, day),
        None => None,
    }
}

} // verus!
