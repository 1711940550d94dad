use wanaplay_booker::clock::{TimeOfDay, Weekday};
use wanaplay_booker::config::{
    is_valid_court_time, valid_court_times, validate_args, ArgumentError, Parameters,
};

fn time(hour: u32, minute: u32) -> TimeOfDay {
    TimeOfDay::new(hour, minute, 0, 0).unwrap()
}

fn fault(outcome: Result<Parameters, ArgumentError>) -> String {
    match outcome {
        Ok(_) => panic!("a fault was expected"),
        Err(ArgumentError::InvalidCourtTime(time)) => format!("time {}", time.to_text()),
        Err(ArgumentError::InvalidWeekday(name)) => format!("weekday {}", name),
        Err(ArgumentError::MissingCredentials) => "credentials".to_string(),
    }
}

fn account() -> (Option<String>, Option<String>) {
    (Some("jane".to_string()), Some("secret".to_string()))
}

#[test]
fn slots_run_from_nine_to_eleven_at_night() {
    let times = valid_court_times();
    assert_eq!(times.len(), 22);
    assert_eq!(times[0].to_label(), "09:00");
    assert_eq!(times[1].to_label(), "09:40");
    assert_eq!(times[2].to_label(), "10:20");
    assert_eq!(times[14].to_label(), "18:20");
    assert_eq!(times[21].to_label(), "23:00");
    for t in times.iter() {
        assert!(is_valid_court_time(*t));
        assert_eq!((t.second(), t.nanosecond()), (0, 0));
    }
}

#[test]
fn only_slots_are_valid_court_times() {
    assert!(is_valid_court_time(time(9, 0)));
    assert!(is_valid_court_time(time(18, 20)));
    assert!(is_valid_court_time(time(23, 0)));
    assert!(!is_valid_court_time(time(8, 20)));
    assert!(!is_valid_court_time(time(23, 40)));
    assert!(!is_valid_court_time(time(9, 1)));
    assert!(!is_valid_court_time(time(18, 0)));
    assert!(!is_valid_court_time(TimeOfDay::new(9, 0, 1, 0).unwrap()));
    assert!(!is_valid_court_time(TimeOfDay::new(9, 0, 0, 1).unwrap()));
}

#[test]
fn good_arguments_make_the_parameters() {
    let (login, password) = account();
    let p = validate_args("wednesday", time(18, 20), login, password).ok().unwrap();
    assert_eq!(p.weekday, Weekday::Wed);
    assert_eq!(p.court_time.to_label(), "18:20");
    assert_eq!(p.wanaplay_credentials.login, "jane");
    assert_eq!(p.wanaplay_credentials.password.secret_password, "secret");
}

#[test]
fn weekday_names_are_read_short_or_long_in_any_case() {
    for (name, day) in [
        ("mon", Weekday::Mon),
        ("Tuesday", Weekday::Tue),
        ("WED", Weekday::Wed),
        ("thu", Weekday::Thu),
        ("Friday", Weekday::Fri),
        ("sat", Weekday::Sat),
        ("SUNDAY", Weekday::Sun),
    ] {
        let (login, password) = account();
        let p = validate_args(name, time(9, 0), login, password).ok().unwrap();
        assert_eq!(p.weekday, day);
    }
}

#[test]
fn unknown_weekday_is_refused() {
    let (login, password) = account();
    assert_eq!(fault(validate_args("someday", time(9, 0), login, password)), "weekday someday");
    let (login, password) = account();
    assert_eq!(fault(validate_args("", time(9, 0), login, password)), "weekday ");
}

#[test]
fn time_off_the_slots_is_refused_first() {
    assert_eq!(fault(validate_args("someday", time(9, 10), None, None)), "time 09:10:00");
}

#[test]
fn weekday_is_checked_before_the_account() {
    assert_eq!(fault(validate_args("someday", time(9, 0), None, None)), "weekday someday");
}

#[test]
fn missing_account_is_refused() {
    assert_eq!(
        fault(validate_args("monday", time(9, 0), Some("jane".to_string()), None)),
        "credentials"
    );
    assert_eq!(
        fault(validate_args("monday", time(9, 0), None, Some("secret".to_string()))),
        "credentials"
    );
}

#[test]
fn only_the_shortest_and_the_longest_names_are_read() {
    for name in ["thurs", "mond", "monda", "mo", "monday ", " mon", "mondayy", "lundi", "m\u{f6}n", "tues", "weds"] {
        let (login, password) = account();
        assert_eq!(
            fault(validate_args(name, time(9, 0), login, password)),
            format!("weekday {}", name)
        );
    }
    for (name, day) in [
        ("mOnDaY", Weekday::Mon),
        ("tue", Weekday::Tue),
        ("wednesday", Weekday::Wed),
        ("THURSDAY", Weekday::Thu),
        ("Fri", Weekday::Fri),
        ("saturday", Weekday::Sat),
        ("sun", Weekday::Sun),
    ] {
        let (login, password) = account();
        assert_eq!(validate_args(name, time(9, 0), login, password).ok().unwrap().weekday, day);
    }
}

#[test]
fn unknown_weekday_is_named_in_the_message() {
    let (login, password) = account();
    let error = validate_args("Funday", time(9, 40), login, password).err().unwrap();
    assert_eq!(error.message(), "Funday is not a valid week day");
}

#[test]
fn refused_time_is_named_with_all_the_slots() {
    let (login, password) = account();
    let error = validate_args("monday", time(18, 21), login, password).err().unwrap();
    assert_eq!(
        error.message(),
        "18:21:00 is not a valid court time, should be one of [09:00:00, 09:40:00, 10:20:00, \
         11:00:00, 11:40:00, 12:20:00, 13:00:00, 13:40:00, 14:20:00, 15:00:00, 15:40:00, \
         16:20:00, 17:00:00, 17:40:00, 18:20:00, 19:00:00, 19:40:00, 20:20:00, 21:00:00, \
         21:40:00, 22:20:00, 23:00:00]"
    );
    let (login, password) = account();
    let odd = TimeOfDay::new(9, 0, 0, 500_000_000).unwrap();
    let error = validate_args("monday", odd, login, password).err().unwrap();
    assert!(error.message().starts_with("09:00:00.500 is not a valid court time"));
}

#[test]
fn missing_account_has_its_message() {
    let error = validate_args("monday", time(9, 0), None, None).err().unwrap();
    assert_eq!(
        error.message(),
        "environment variable wanaplay_login and wanaplay_password should be set"
    );
}
