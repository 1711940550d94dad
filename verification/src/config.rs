//! What is to be booked, and for whom.

use vstd::prelude::*;
use crate::clock::{parse_weekday, time_written, weekday_named, TimeOfDay, Weekday};
use crate::credentials::{get_credentials, WanaplayCredentials};
use vstd::string::StringExecFns;

verus! {

/// Minute of the day of the first slot: 09:00.
pub const FIRST_SLOT_MINUTE: u32 = 540;

/// Minute of the day of the last slot: 23:00.
pub const LAST_SLOT_MINUTE: u32 = 1380;

/// Minutes from one slot to the next.
pub const SLOT_MINUTES: u32 = 40;

/// The slot wanted each week, and the account that books it.
pub struct Parameters {
    pub weekday: Weekday,
    pub court_time: TimeOfDay,
    pub wanaplay_credentials: WanaplayCredentials,
}

/// The parameters as a value of specifications.
pub ghost struct ParameterFacts {
    pub weekday: Weekday,
    pub court_time: TimeOfDay,
    pub login: Seq<char>,
    pub secret_password: Seq<char>,
}

impl View for Parameters {
    type V = ParameterFacts;

    open spec fn view(&self) -> ParameterFacts {
        ParameterFacts {
            weekday: self.weekday,
            court_time: self.court_time,
            login: self.wanaplay_credentials.login@,
            secret_password: self.wanaplay_credentials.password.secret_password@,
        }
    }
}

/// The minute of the day of a time.
pub open spec fn minute_of_day(time: TimeOfDay) -> int {
    time.spec_hour() * 60 + time.spec_minute()
}

/// Whether the facility has a slot at `time`: on the minute, from 09:00 to
/// 23:00, every forty minutes.
pub open spec fn is_court_time(time: TimeOfDay) -> bool {
    &&& time.spec_second() == 0
    &&& time.spec_nanosecond() == 0
    &&& FIRST_SLOT_MINUTE <= minute_of_day(time) <= LAST_SLOT_MINUTE
    &&& (minute_of_day(time) - FIRST_SLOT_MINUTE) % (SLOT_MINUTES as int) == 0
}

/// Whether `time` is the slot of rank `rank`, the first being of rank 0.
pub open spec fn is_slot(time: TimeOfDay, rank: int) -> bool {
    &&& time.valid()
    &&& time.spec_second() == 0
    &&& time.spec_nanosecond() == 0
    &&& minute_of_day(time) == FIRST_SLOT_MINUTE + SLOT_MINUTES * rank
}

/// Whether the facility has a slot at `time`.
pub fn is_valid_court_time(time: TimeOfDay) -> (valid: bool)
    ensures
        valid == is_court_time(time),
{
    let minutes: u32 = time.hour() * 60 + time.minute();
    time.second() == 0 && time.nanosecond() == 0 && FIRST_SLOT_MINUTE <= minutes && minutes
        <= LAST_SLOT_MINUTE && (minutes - FIRST_SLOT_MINUTE) % SLOT_MINUTES == 0
}

/// The facility's slots, from the first to the last.
pub fn valid_court_times() -> (times: Vec<TimeOfDay>)
    ensures
        times.len() == 22,
        forall|rank: int| 0 <= rank < 22 ==> is_slot(#[trigger] times[rank], rank),
{
    let mut times: Vec<TimeOfDay> = Vec::new();
    let mut minutes: u32 = FIRST_SLOT_MINUTE;
    while minutes <= LAST_SLOT_MINUTE
        invariant
            minutes == FIRST_SLOT_MINUTE + SLOT_MINUTES * times.len(),
            times.len() <= 22,
            forall|rank: int| 0 <= rank < times.len() ==> is_slot(#[trigger] times[rank], rank),
        decreases LAST_SLOT_MINUTE + SLOT_MINUTES - minutes,
    {
        times.push(TimeOfDay::new(minutes / 60, minutes % 60, 0, 0).unwrap());
        minutes += SLOT_MINUTES;
    }
    times
}

/// A time is a slot if and only if it is the slot of one of the 22 ranks.
pub proof fn court_times_are_the_slots(time: TimeOfDay)
    requires
        time.valid(),
    ensures
        is_court_time(time) <==> exists|rank: int| 0 <= rank < 22 && is_slot(time, rank),
{
    if is_court_time(time) {
        let rank = (minute_of_day(time) - FIRST_SLOT_MINUTE) / (SLOT_MINUTES as int);
        assert(is_slot(time, rank));
    }
    if exists|rank: int| 0 <= rank < 22 && is_slot(time, rank) {
        let rank = choose|rank: int| 0 <= rank < 22 && is_slot(time, rank);
        assert(minute_of_day(time) - FIRST_SLOT_MINUTE == SLOT_MINUTES * rank);
    }
}

/// What is wrong with the arguments of a run.
pub enum ArgumentError {
    /// This time of day is not one of the facility's slots.
    InvalidCourtTime(TimeOfDay),
    /// This name of a weekday was not understood.
    InvalidWeekday(String),
    /// The login or the password is not configured.
    MissingCredentials,
}

/// What is wrong with the arguments, as a value of specifications.
pub ghost enum ArgumentFault {
    InvalidCourtTime(TimeOfDay),
    InvalidWeekday(Seq<char>),
    MissingCredentials,
}

impl View for ArgumentError {
    type V = ArgumentFault;

    open spec fn view(&self) -> ArgumentFault {
        match self {
            ArgumentError::InvalidCourtTime(time) => ArgumentFault::InvalidCourtTime(*time),
            ArgumentError::InvalidWeekday(name) => ArgumentFault::InvalidWeekday(name@),
            ArgumentError::MissingCredentials => ArgumentFault::MissingCredentials,
        }
    }
}

/// The slot of rank `rank` written in full.
pub open spec fn slot_text(rank: int) -> Seq<char> {
    time_written(
        ((FIRST_SLOT_MINUTE + SLOT_MINUTES * rank) / 60) as u32,
        ((FIRST_SLOT_MINUTE + SLOT_MINUTES * rank) % 60) as u32,
        0,
        0,
    )
}

/// The first `count` slots written in full, with a comma and a space
/// between two.
pub open spec fn slots_text(count: nat) -> Seq<char>
    decreases count,
{
    if count == 0 {
        Seq::empty()
    } else if count == 1 {
        slot_text(0)
    } else {
        slots_text((count - 1) as nat) + ", "@ + slot_text(count - 1)
    }
}

/// What is said of a fault in the arguments.
///
/// A time is named with all the slots that could have been asked for, a
/// weekday's name as it was given.
pub open spec fn fault_text(fault: ArgumentFault) -> Seq<char> {
    match fault {
        ArgumentFault::InvalidCourtTime(time) => time.text()
            + " is not a valid court time, should be one of ["@ + slots_text(22) + "]"@,
        ArgumentFault::InvalidWeekday(name) => name + " is not a valid week day"@,
        ArgumentFault::MissingCredentials =>
            "environment variable wanaplay_login and wanaplay_password should be set"@,
    }
}

/// A slot is written as its rank says.
proof fn slot_is_written_by_rank(time: TimeOfDay, rank: int)
    requires
        0 <= rank < 22,
        is_slot(time, rank),
    ensures
        time.text() == slot_text(rank),
{
    let minutes = FIRST_SLOT_MINUTE + SLOT_MINUTES * rank;
    assert(time.spec_hour() * 60 + time.spec_minute() == minutes);
    assert(time.spec_hour() == minutes / 60);
    assert(time.spec_minute() == minutes % 60);
}

fn slots_listed() -> (text: String)
    ensures
        text@ == slots_text(22),
{
    let times = valid_court_times();
    let mut text = String::new();
    let mut rank: usize = 0;
    while rank < times.len()
        invariant
            rank <= times.len() == 22,
            forall|r: int| 0 <= r < 22 ==> is_slot(#[trigger] times[r], r),
            text@ == slots_text(rank as nat),
        decreases times.len() - rank,
    {
        if rank > 0 {
            text.append(", ");
        }
        let slot = times[rank].to_text();
        proof {
            slot_is_written_by_rank(times[rank as int], rank as int);
        }
        text.append(slot.as_str());
        rank += 1;
        assert(text@ == slots_text(rank as nat));
    }
    text
}

impl ArgumentError {
    /// What is said of the fault.
    pub fn message(&self) -> (text: String)
        ensures
            text@ == fault_text(self@),
    {
        match self {
            ArgumentError::InvalidCourtTime(time) => {
                let mut text = time.to_text();
                text.append(" is not a valid court time, should be one of [");
                text.append(slots_listed().as_str());
                text.append("]");
                text
            },
            ArgumentError::InvalidWeekday(name) => {
                let mut text = name.clone();
                text.append(" is not a valid week day");
                text
            },
            ArgumentError::MissingCredentials => String::from_str(
                "environment variable wanaplay_login and wanaplay_password should be set",
            ),
        }
    }
}

/// The weekday of the parameters, or what is wrong with the arguments.
///
/// The time must be a slot, the weekday's name must be understood, and both
/// values of the account must be there; what fails first in that order is
/// the fault.
pub open spec fn args_outcome(
    weekday: Seq<char>,
    court_time: TimeOfDay,
    login: Option<String>,
    password: Option<String>,
) -> Result<Weekday, ArgumentFault> {
    if !is_court_time(court_time) {
        Err(ArgumentFault::InvalidCourtTime(court_time))
    } else {
        match weekday_named(weekday) {
            None => Err(ArgumentFault::InvalidWeekday(weekday)),
            Some(day) => if login.is_none() || password.is_none() {
                Err(ArgumentFault::MissingCredentials)
            } else {
                Ok(day)
            },
        }
    }
}

/// The parameters made of a weekday's name, a time, and the two configured
/// values of the account.
///
/// The time must be a slot, the name must be that of a weekday, and both
/// values must be there; what fails first in that order is reported, with
/// the time or the name that was refused.
pub fn validate_args(
    weekday: &str,
    court_time: TimeOfDay,
    login: Option<String>,
    password: Option<String>,
) -> (parameters: Result<Parameters, ArgumentError>)
    ensures
        match parameters {
            Ok(p) => args_outcome(weekday@, court_time, login, password) == Ok::<
                Weekday,
                ArgumentFault,
            >(p.weekday) && p.court_time == court_time && p.wanaplay_credentials.login@
                == login.unwrap()@ && p.wanaplay_credentials.password.secret_password@
                == password.unwrap()@,
            Err(e) => args_outcome(weekday@, court_time, login, password) == Err::<
                Weekday,
                ArgumentFault,
            >(e@),
        },
{
    if !is_valid_court_time(court_time) {
        return Err(ArgumentError::InvalidCourtTime(court_time));
    }
    let day = match parse_weekday(weekday) {
        Some(day) => day,
        None => { return Err(ArgumentError::InvalidWeekday(weekday.to_owned())); },
    };
    match get_credentials(login, password) {
        Ok(wanaplay_credentials) => Ok(
            Parameters { weekday: day, court_time, wanaplay_credentials },
        ),
        Err(_) => Err(ArgumentError::MissingCredentials),
    }
}

} // verus!
