use wanaplay_booker::clock::{Date, Moment, TimeOfDay, Weekday};

fn date(year: i32, month: u32, day: u32) -> Date {
    Date::new(year, month, day).unwrap()
}

#[test]
fn pred_goes_round_the_week() {
    assert_eq!(Weekday::Mon.pred(), Weekday::Sun);
    assert_eq!(Weekday::Tue.pred(), Weekday::Mon);
    assert_eq!(Weekday::Wed.pred(), Weekday::Tue);
    assert_eq!(Weekday::Thu.pred(), Weekday::Wed);
    assert_eq!(Weekday::Fri.pred(), Weekday::Thu);
    assert_eq!(Weekday::Sat.pred(), Weekday::Fri);
    assert_eq!(Weekday::Sun.pred(), Weekday::Sat);
}

#[test]
fn date_keeps_its_fields() {
    let d = date(2019, 1, 22);
    assert_eq!((d.year(), d.month(), d.day()), (2019, 1, 22));
}

#[test]
fn date_out_of_range_is_refused() {
    assert!(Date::new(10000, 1, 1).is_none());
    assert!(Date::new(-1, 1, 1).is_none());
    assert!(Date::new(2019, 0, 1).is_none());
    assert!(Date::new(2019, 13, 1).is_none());
    assert!(Date::new(2019, 1, 0).is_none());
    assert!(Date::new(2019, 1, 32).is_none());
    assert!(Date::new(0, 1, 1).is_some());
    assert!(Date::new(9999, 12, 31).is_some());
}

#[test]
fn date_is_written_year_first() {
    assert_eq!(date(2019, 1, 6).to_iso(), "2019-01-06");
    assert_eq!(date(2018, 12, 24).to_iso(), "2018-12-24");
    assert_eq!(date(987, 10, 31).to_iso(), "0987-10-31");
}

#[test]
fn date_is_written_day_first() {
    assert_eq!(date(2019, 1, 6).to_day_first(), "06/01/2019");
    assert_eq!(date(2018, 12, 24).to_day_first(), "24/12/2018");
}

#[test]
fn time_of_day_keeps_its_fields() {
    let t = TimeOfDay::new(18, 20, 7, 5).unwrap();
    assert_eq!((t.hour(), t.minute(), t.second(), t.nanosecond()), (18, 20, 7, 5));
}

#[test]
fn time_out_of_range_is_refused() {
    assert!(TimeOfDay::new(24, 0, 0, 0).is_none());
    assert!(TimeOfDay::new(0, 60, 0, 0).is_none());
    assert!(TimeOfDay::new(0, 0, 60, 0).is_none());
    assert!(TimeOfDay::new(23, 59, 59, 0).is_some());
}

#[test]
fn nanosecond_is_held_to_a_second_but_for_a_leap_second() {
    assert!(TimeOfDay::new(9, 0, 0, 999_999_999).is_some());
    assert!(TimeOfDay::new(9, 0, 0, 1_000_000_000).is_none());
    assert!(TimeOfDay::new(9, 0, 59, 1_000_000_000).is_some());
    assert!(TimeOfDay::new(9, 0, 59, 1_999_999_999).is_some());
    assert!(TimeOfDay::new(9, 0, 59, 2_000_000_000).is_none());
}

#[test]
fn time_is_written_in_full() {
    let text = |h, m, s, n| TimeOfDay::new(h, m, s, n).unwrap().to_text();
    assert_eq!(text(9, 40, 0, 0), "09:40:00");
    assert_eq!(text(23, 59, 59, 0), "23:59:59");
    assert_eq!(text(0, 0, 7, 500_000_000), "00:00:07.500");
    assert_eq!(text(0, 0, 7, 1_000_000), "00:00:07.001");
    assert_eq!(text(0, 0, 7, 1_000), "00:00:07.000001");
    assert_eq!(text(0, 0, 7, 120_034_000), "00:00:07.120034");
    assert_eq!(text(0, 0, 7, 1), "00:00:07.000000001");
    assert_eq!(text(0, 0, 7, 123_456_789), "00:00:07.123456789");
    assert_eq!(text(23, 59, 59, 1_000_000_000), "23:59:60");
    assert_eq!(text(23, 59, 59, 1_250_000_000), "23:59:60.250");
}

#[test]
fn time_label_has_hour_and_minute_in_two_digits() {
    assert_eq!(TimeOfDay::new(9, 0, 0, 0).unwrap().to_label(), "09:00");
    assert_eq!(TimeOfDay::new(18, 20, 59, 0).unwrap().to_label(), "18:20");
    assert_eq!(TimeOfDay::new(0, 5, 0, 0).unwrap().to_label(), "00:05");
}

#[test]
fn moment_knows_its_weekday() {
    let noon = TimeOfDay::new(12, 0, 0, 0).unwrap();
    assert_eq!(Moment::at(date(2019, 1, 22), noon).unwrap().weekday(), Weekday::Tue);
    assert_eq!(Moment::at(date(2019, 2, 6), noon).unwrap().weekday(), Weekday::Wed);
    assert_eq!(Moment::at(date(2024, 2, 29), noon).unwrap().weekday(), Weekday::Thu);
    assert_eq!(Moment::at(date(2000, 1, 1), noon).unwrap().weekday(), Weekday::Sat);
}

#[test]
fn moment_keeps_date_and_time() {
    let time = TimeOfDay::new(23, 58, 30, 0).unwrap();
    let m = Moment::at(date(2019, 1, 22), time).unwrap();
    assert_eq!(m.date().to_iso(), "2019-01-22");
    assert_eq!((m.time().hour(), m.time().minute(), m.time().second()), (23, 58, 30));
}

#[test]
fn moment_on_a_day_that_is_none_is_refused() {
    let noon = TimeOfDay::new(12, 0, 0, 0).unwrap();
    assert!(Moment::at(date(2019, 2, 29), noon).is_none());
    assert!(Moment::at(date(2019, 4, 31), noon).is_none());
    assert!(Moment::at(date(2020, 2, 29), noon).is_some());
}
