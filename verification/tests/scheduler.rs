use wanaplay_booker::clock::{Date, Moment, TimeOfDay, Weekday};
use wanaplay_booker::scheduler::{decide, sleep_seconds, target_date, Decision};

fn moment(year: i32, month: u32, day: u32, hour: u32, minute: u32) -> Moment {
    Moment::at(Date::new(year, month, day).unwrap(), TimeOfDay::new(hour, minute, 0, 0).unwrap())
        .unwrap()
}

#[test]
fn decision_goes_by_weekday_then_hour_then_minute() {
    assert_eq!(decide(Weekday::Mon, 23, 59, Weekday::Wed), Decision::Rest);
    assert_eq!(decide(Weekday::Wed, 23, 59, Weekday::Wed), Decision::Rest);
    assert_eq!(decide(Weekday::Tue, 22, 59, Weekday::Wed), Decision::Approach);
    assert_eq!(decide(Weekday::Tue, 0, 58, Weekday::Wed), Decision::Approach);
    assert_eq!(decide(Weekday::Tue, 23, 0, Weekday::Wed), Decision::Arm);
    assert_eq!(decide(Weekday::Tue, 23, 57, Weekday::Wed), Decision::Arm);
    assert_eq!(decide(Weekday::Tue, 23, 58, Weekday::Wed), Decision::Watch);
    assert_eq!(decide(Weekday::Tue, 23, 59, Weekday::Wed), Decision::Watch);
    assert_eq!(decide(Weekday::Sun, 23, 58, Weekday::Mon), Decision::Watch);
}

#[test]
fn sleeps_last_23_hours_50_minutes_or_one_minute() {
    assert_eq!(sleep_seconds(Decision::Rest), Some(23 * 60 * 60));
    assert_eq!(sleep_seconds(Decision::Approach), Some(50 * 60));
    assert_eq!(sleep_seconds(Decision::Arm), Some(60));
    assert_eq!(sleep_seconds(Decision::Watch), None);
}

#[test]
fn target_day_is_fifteen_days_after_the_day_of_now() {
    assert_eq!(target_date(&moment(2019, 1, 22, 23, 58)).unwrap().to_iso(), "2019-02-06");
    assert_eq!(target_date(&moment(2019, 1, 22, 0, 0)).unwrap().to_iso(), "2019-02-06");
    assert_eq!(target_date(&moment(2019, 12, 20, 23, 59)).unwrap().to_iso(), "2020-01-04");
    assert_eq!(target_date(&moment(2020, 2, 14, 23, 59)).unwrap().to_iso(), "2020-02-29");
    assert_eq!(target_date(&moment(2019, 2, 14, 23, 59)).unwrap().to_iso(), "2019-03-01");
}

#[test]
fn target_day_that_cannot_be_written_is_none() {
    assert!(target_date(&moment(9999, 12, 17, 23, 58)).is_none());
    assert_eq!(target_date(&moment(9999, 12, 16, 23, 58)).unwrap().to_iso(), "9999-12-31");
}
