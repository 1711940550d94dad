//! The run of the booker, one step at a time.
//!
//! The engine sends nothing and never sleeps. It is told what happened, and
//! answers with what is to be done; whoever drives it does that and comes
//! back with what happened next.

use vstd::prelude::*;
use crate::calendar::{day_facts, day_request, is_openned, listing_open, POLL_SECONDS};
use crate::clock::{Date, Moment};
use crate::config::{ParameterFacts, Parameters};
use crate::credentials::sha1_hex;
use crate::error::Error;
use crate::http::{Reading, Request, RequestFacts, Response, ResponseFacts};
use crate::reservation::{
    book, confirm_facts, get_user_infos, page_participant, participant_facts, participant_request,
    ReservationOutcome,
};
use crate::scheduler::{
    decide, decision, target_date, target_of, Decision, APPROACH_SECONDS, ARMED_SECONDS,
    COARSE_SECONDS,
};
use crate::session::{
    authenticate, login_accepted, login_facts, login_request, warm_up_facts, warm_up_request,
    Session,
};
use crate::slots::{find_book_ids, page_candidates, select_candidate, selected_index};

verus! {

/// Where a run stands.
pub enum State {
    /// Nothing is under way; the next wake-up starts a cycle.
    Idle,
    /// The login was sent at the wake-up `now`.
    Authenticating { now: Moment },
    /// The fresh session's first request was sent.
    Warming { now: Moment, session: Session },
    /// Asleep, far from the eve.
    WaitingForEve,
    /// Asleep on the eve, before its last hour.
    ApproachingMidnight,
    /// Asleep in the last hour of the eve.
    ArmedForOpening,
    /// The day was asked for, to see whether it is open.
    Polling { session: Session, date: Date },
    /// Asleep between two looks at a closed day.
    BetweenPolls { session: Session, date: Date },
    /// The open day's listing was asked for.
    Locating { session: Session, date: Date },
    /// The page that shows the chosen offer was asked for.
    Booking { session: Session, date: Date, raw_id: String },
    /// The confirmation was sent.
    Confirming,
    /// The run has ended on a failure.
    Stopped { error: Error },
}

/// A state as a value of specifications.
pub ghost enum StateFacts {
    Idle,
    Authenticating { now: Moment },
    Warming { now: Moment, cookie: Seq<char> },
    WaitingForEve,
    ApproachingMidnight,
    ArmedForOpening,
    Polling { cookie: Seq<char>, date: Date },
    BetweenPolls { cookie: Seq<char>, date: Date },
    Locating { cookie: Seq<char>, date: Date },
    Booking { cookie: Seq<char>, date: Date, raw_id: Seq<char> },
    Confirming,
    Stopped { error: Error },
}

impl View for State {
    type V = StateFacts;

    open spec fn view(&self) -> StateFacts {
        match self {
            State::Idle => StateFacts::Idle,
            State::Authenticating { now } => StateFacts::Authenticating { now: *now },
            State::Warming { now, session } => StateFacts::Warming {
                now: *now,
                cookie: session.cookie_text(),
            },
            State::WaitingForEve => StateFacts::WaitingForEve,
            State::ApproachingMidnight => StateFacts::ApproachingMidnight,
            State::ArmedForOpening => StateFacts::ArmedForOpening,
            State::Polling { session, date } => StateFacts::Polling {
                cookie: session.cookie_text(),
                date: *date,
            },
            State::BetweenPolls { session, date } => StateFacts::BetweenPolls {
                cookie: session.cookie_text(),
                date: *date,
            },
            State::Locating { session, date } => StateFacts::Locating {
                cookie: session.cookie_text(),
                date: *date,
            },
            State::Booking { session, date, raw_id } => StateFacts::Booking {
                cookie: session.cookie_text(),
                date: *date,
                raw_id: raw_id@,
            },
            State::Confirming => StateFacts::Confirming,
            State::Stopped { error } => StateFacts::Stopped { error: *error },
        }
    }
}

/// What happened.
pub enum Event {
    /// The run started, or a sleep or a report is over; the clock shows `now`.
    Woke(Moment),
    /// The site replied to the request that was sent.
    Replied(Response),
    /// The request that was sent could not be carried out.
    Failed,
}

/// An event as a value of specifications.
pub ghost enum EventFacts {
    Woke(Moment),
    Replied(ResponseFacts),
    Failed,
}

impl View for Event {
    type V = EventFacts;

    open spec fn view(&self) -> EventFacts {
        match self {
            Event::Woke(now) => EventFacts::Woke(*now),
            Event::Replied(reply) => EventFacts::Replied(reply@),
            Event::Failed => EventFacts::Failed,
        }
    }
}

/// What is to be done.
pub enum Action {
    /// Send the request, and come back with the reply or the failure.
    Send(Request),
    /// Sleep for so many seconds, and come back with the time.
    Sleep(u64),
    /// Make the outcome of the attempt known, and come back with the time.
    Report(ReservationOutcome),
    /// End the run on the failure.
    Abort(Error),
}

/// An action as a value of specifications.
pub ghost enum ActionFacts {
    Send(RequestFacts),
    Sleep(u64),
    Report(ReservationOutcome),
    Abort(Error),
}

impl View for Action {
    type V = ActionFacts;

    open spec fn view(&self) -> ActionFacts {
        match self {
            Action::Send(request) => ActionFacts::Send(request@),
            Action::Sleep(seconds) => ActionFacts::Sleep(*seconds),
            Action::Report(outcome) => ActionFacts::Report(*outcome),
            Action::Abort(error) => ActionFacts::Abort(*error),
        }
    }
}

/// The end of the run on a failure.
pub open spec fn stopped(error: Error) -> (StateFacts, ActionFacts) {
    (StateFacts::Stopped { error }, ActionFacts::Abort(error))
}

/// The start of a cycle: the login is sent.
pub open spec fn cycle_start(parameters: ParameterFacts, now: Moment) -> (StateFacts, ActionFacts) {
    (
        StateFacts::Authenticating { now },
        ActionFacts::Send(login_facts(parameters.login, sha1_hex(parameters.secret_password))),
    )
}

/// What follows the reply to the login.
pub open spec fn after_login(now: Moment, reply: ResponseFacts) -> (StateFacts, ActionFacts) {
    if login_accepted(reply) {
        let cookie = reply.set_cookie.unwrap();
        (StateFacts::Warming { now, cookie }, ActionFacts::Send(warm_up_facts(cookie)))
    } else {
        stopped(Error::AuthenticationError)
    }
}

/// What a cycle leads to once its session is ready: a sleep, or the first
/// look at the day to book.
pub open spec fn after_warm_up(parameters: ParameterFacts, now: Moment, cookie: Seq<char>) -> (
    StateFacts,
    ActionFacts,
) {
    match decision(
        now.spec_weekday(),
        now.spec_time().spec_hour(),
        now.spec_time().spec_minute(),
        parameters.weekday,
    ) {
        Decision::Rest => (StateFacts::WaitingForEve, ActionFacts::Sleep(COARSE_SECONDS)),
        Decision::Approach => (
            StateFacts::ApproachingMidnight,
            ActionFacts::Sleep(APPROACH_SECONDS),
        ),
        Decision::Arm => (StateFacts::ArmedForOpening, ActionFacts::Sleep(ARMED_SECONDS)),
        Decision::Watch => match target_of(now.spec_date()) {
            Some(date) => (
                StateFacts::Polling { cookie, date },
                ActionFacts::Send(day_facts(cookie, date, Reading::Text)),
            ),
            None => stopped(Error::InvalidDate),
        },
    }
}

/// What follows a look at the day: a short sleep while it is closed, the
/// request for its listing once it is open.
pub open spec fn after_poll(cookie: Seq<char>, date: Date, body: Seq<char>) -> (
    StateFacts,
    ActionFacts,
) {
    if listing_open(body) {
        (
            StateFacts::Locating { cookie, date },
            ActionFacts::Send(day_facts(cookie, date, Reading::Page)),
        )
    } else {
        (StateFacts::BetweenPolls { cookie, date }, ActionFacts::Sleep(POLL_SECONDS))
    }
}

/// What follows the listing of the open day: the page of the chosen offer
/// is asked for, or there is none to choose, or the listing is unreadable.
pub open spec fn after_listing(
    parameters: ParameterFacts,
    cookie: Seq<char>,
    date: Date,
    body: Seq<char>,
) -> (StateFacts, ActionFacts) {
    match page_candidates(body, parameters.court_time.label()) {
        Err(error) => stopped(error),
        Ok(ids) => match selected_index(ids.len()) {
            None => (
                StateFacts::Idle,
                ActionFacts::Report(ReservationOutcome::Failed(Error::NoCandidateOffer)),
            ),
            Some(chosen) => (
                StateFacts::Booking { cookie, date, raw_id: ids[chosen as int] },
                ActionFacts::Send(participant_facts(cookie, ids[chosen as int])),
            ),
        },
    }
}

/// What follows the page of the chosen offer: the confirmation is sent for
/// the member that the page names, or the page is unreadable.
pub open spec fn after_show(cookie: Seq<char>, date: Date, raw_id: Seq<char>, body: Seq<char>) -> (
    StateFacts,
    ActionFacts,
) {
    match page_participant(body) {
        None => stopped(Error::ParseError),
        Some((user_id, user_name)) => (
            StateFacts::Confirming,
            ActionFacts::Send(confirm_facts(cookie, date, raw_id, user_id, user_name)),
        ),
    }
}

/// The state that follows `state` on `event`, and what is to be done.
pub open spec fn next(parameters: ParameterFacts, state: StateFacts, event: EventFacts) -> (
    StateFacts,
    ActionFacts,
) {
    match state {
        StateFacts::Idle
        | StateFacts::WaitingForEve
        | StateFacts::ApproachingMidnight
        | StateFacts::ArmedForOpening => match event {
            EventFacts::Woke(now) => cycle_start(parameters, now),
            _ => stopped(Error::UnexpectedEvent),
        },
        StateFacts::Authenticating { now } => match event {
            EventFacts::Replied(reply) => after_login(now, reply),
            EventFacts::Failed => stopped(Error::AuthenticationError),
            EventFacts::Woke(_) => stopped(Error::UnexpectedEvent),
        },
        StateFacts::Warming { now, cookie } => match event {
            EventFacts::Replied(_) | EventFacts::Failed => after_warm_up(parameters, now, cookie),
            EventFacts::Woke(_) => stopped(Error::UnexpectedEvent),
        },
        StateFacts::Polling { cookie, date } => match event {
            EventFacts::Replied(reply) => after_poll(cookie, date, reply.body),
            EventFacts::Failed => stopped(Error::TransportError),
            EventFacts::Woke(_) => stopped(Error::UnexpectedEvent),
        },
        StateFacts::BetweenPolls { cookie, date } => match event {
            EventFacts::Woke(_) => (
                StateFacts::Polling { cookie, date },
                ActionFacts::Send(day_facts(cookie, date, Reading::Text)),
            ),
            _ => stopped(Error::UnexpectedEvent),
        },
        StateFacts::Locating { cookie, date } => match event {
            EventFacts::Replied(reply) => after_listing(parameters, cookie, date, reply.body),
            EventFacts::Failed => stopped(Error::TransportError),
            EventFacts::Woke(_) => stopped(Error::UnexpectedEvent),
        },
        StateFacts::Booking { cookie, date, raw_id } => match event {
            EventFacts::Replied(reply) => after_show(cookie, date, raw_id, reply.body),
            EventFacts::Failed => stopped(Error::TransportError),
            EventFacts::Woke(_) => stopped(Error::UnexpectedEvent),
        },
        StateFacts::Confirming => match event {
            EventFacts::Replied(_) => (
                StateFacts::Idle,
                ActionFacts::Report(ReservationOutcome::Confirmed),
            ),
            EventFacts::Failed => stopped(Error::TransportError),
            EventFacts::Woke(_) => stopped(Error::UnexpectedEvent),
        },
        StateFacts::Stopped { error } => stopped(error),
    }
}

fn stop(error: Error) -> (step: (State, Action))
    ensures
        (step.0@, step.1@) == stopped(error),
{
    (State::Stopped { error }, Action::Abort(error))
}

fn start_cycle(parameters: &Parameters, now: Moment) -> (step: (State, Action))
    ensures
        (step.0@, step.1@) == cycle_start(parameters@, now),
{
    let login = parameters.wanaplay_credentials.login.clone();
    let digest = parameters.wanaplay_credentials.password.crypted();
    (State::Authenticating { now }, Action::Send(login_request(login, digest)))
}

fn on_login_reply(now: Moment, reply: &Response) -> (step: (State, Action))
    ensures
        (step.0@, step.1@) == after_login(now, reply@),
{
    match authenticate(reply) {
        Ok(session) => {
            let request = warm_up_request(&session);
            (State::Warming { now, session }, Action::Send(request))
        },
        Err(error) => stop(error),
    }
}

fn on_session_ready(parameters: &Parameters, now: Moment, session: Session) -> (step: (
    State,
    Action,
))
    ensures
        (step.0@, step.1@) == after_warm_up(parameters@, now, session.cookie_text()),
{
    let time = now.time();
    match decide(now.weekday(), time.hour(), time.minute(), parameters.weekday) {
        Decision::Rest => (State::WaitingForEve, Action::Sleep(COARSE_SECONDS)),
        Decision::Approach => (State::ApproachingMidnight, Action::Sleep(APPROACH_SECONDS)),
        Decision::Arm => (State::ArmedForOpening, Action::Sleep(ARMED_SECONDS)),
        Decision::Watch => match target_date(&now) {
            Some(date) => {
                let request = day_request(&session, date, Reading::Text);
                (State::Polling { session, date }, Action::Send(request))
            },
            None => stop(Error::InvalidDate),
        },
    }
}

fn on_poll_reply(session: Session, date: Date, reply: &Response) -> (step: (State, Action))
    ensures
        (step.0@, step.1@) == after_poll(session.cookie_text(), date, reply@.body),
{
    if is_openned(reply.body.as_str()) {
        let request = day_request(&session, date, Reading::Page);
        (State::Locating { session, date }, Action::Send(request))
    } else {
        (State::BetweenPolls { session, date }, Action::Sleep(POLL_SECONDS))
    }
}

fn on_listing(parameters: &Parameters, session: Session, date: Date, reply: &Response) -> (step: (
    State,
    Action,
))
    ensures
        (step.0@, step.1@) == after_listing(parameters@, session.cookie_text(), date, reply@.body),
{
    match find_book_ids(reply.body.as_str(), parameters.court_time) {
        Err(error) => stop(error),
        Ok(offers) => match select_candidate(offers.len()) {
            None => (
                State::Idle,
                Action::Report(ReservationOutcome::Failed(Error::NoCandidateOffer)),
            ),
            Some(chosen) => {
                let raw_id = offers[chosen].raw_id.clone();
                let request = participant_request(&session, &raw_id);
                (State::Booking { session, date, raw_id }, Action::Send(request))
            },
        },
    }
}

fn on_show(session: Session, date: Date, raw_id: String, reply: &Response) -> (step: (
    State,
    Action,
))
    ensures
        (step.0@, step.1@) == after_show(session.cookie_text(), date, raw_id@, reply@.body),
{
    match get_user_infos(reply.body.as_str()) {
        Err(error) => stop(error),
        Ok(user_infos) => {
            let request = book(&session, &user_infos, &raw_id, date);
            (State::Confirming, Action::Send(request))
        },
    }
}

/// One step of the run: the state that follows `state` on `event`, and what
/// is to be done.
///
/// A wake-up starts a cycle with a login. Once the session is ready the
/// clock of that wake-up decides: a sleep of 23 hours off the eve of the
/// wanted weekday, of 50 minutes on the eve before 23 o'clock, of one minute
/// from then to 23:58, and after that the watch. The watch looks at the day
/// fifteen days ahead every two seconds until it is open, asks for its
/// listing, asks for the page of the chosen offer and sends one
/// confirmation. Then, and when no offer matches, the run is idle again. A
/// failure ends the run, but for the reply to the session's first request,
/// which is of no interest.
pub fn step(parameters: &Parameters, state: State, event: Event) -> (step: (State, Action))
    ensures
        (step.0@, step.1@) == next(parameters@, state@, event@),
{
    match state {
        State::Idle
        | State::WaitingForEve
        | State::ApproachingMidnight
        | State::ArmedForOpening => {
            match event {
                Event::Woke(now) => start_cycle(parameters, now),
                _ => stop(Error::UnexpectedEvent),
            }
        },
        State::Authenticating { now } => match event {
            Event::Replied(reply) => on_login_reply(now, &reply),
            Event::Failed => stop(Error::AuthenticationError),
            Event::Woke(_) => stop(Error::UnexpectedEvent),
        },
        State::Warming { now, session } => match event {
            Event::Replied(_) | Event::Failed => on_session_ready(parameters, now, session),
            Event::Woke(_) => stop(Error::UnexpectedEvent),
        },
        State::Polling { session, date } => match event {
            Event::Replied(reply) => on_poll_reply(session, date, &reply),
            Event::Failed => stop(Error::TransportError),
            Event::Woke(_) => stop(Error::UnexpectedEvent),
        },
        State::BetweenPolls { session, date } => match event {
            Event::Woke(_) => {
                let request = day_request(&session, date, Reading::Text);
                (State::Polling { session, date }, Action::Send(request))
            },
            _ => stop(Error::UnexpectedEvent),
        },
        State::Locating { session, date } => match event {
            Event::Replied(reply) => on_listing(parameters, session, date, &reply),
            Event::Failed => stop(Error::TransportError),
            Event::Woke(_) => stop(Error::UnexpectedEvent),
        },
        State::Booking { session, date, raw_id } => match event {
            Event::Replied(reply) => on_show(session, date, raw_id, &reply),
            Event::Failed => stop(Error::TransportError),
            Event::Woke(_) => stop(Error::UnexpectedEvent),
        },
        State::Confirming => match event {
            Event::Replied(_) => (State::Idle, Action::Report(ReservationOutcome::Confirmed)),
            Event::Failed => stop(Error::TransportError),
            Event::Woke(_) => stop(Error::UnexpectedEvent),
        },
        State::Stopped { error } => stop(error),
    }
}

/// Whether the session of a cycle that woke at `now` is ready in `state`
/// and `event` is what makes the cycle go on.
pub open spec fn session_ready(state: StateFacts, event: EventFacts, now: Moment) -> bool {
    &&& state matches StateFacts::Warming { now: woke, .. }
    &&& woke == now
    &&& !(event is Woke)
}

/// Off the eve of the wanted weekday a cycle ends in the sleep of 23 hours,
/// at any time of day, and nothing is asked of the calendar.
pub proof fn off_the_eve_the_run_rests(
    parameters: ParameterFacts,
    state: StateFacts,
    event: EventFacts,
    now: Moment,
)
    requires
        session_ready(state, event, now),
        now.spec_weekday() != parameters.weekday.spec_pred(),
    ensures
        next(parameters, state, event) == (
            StateFacts::WaitingForEve,
            ActionFacts::Sleep(COARSE_SECONDS),
        ),
        COARSE_SECONDS == 23 * 60 * 60,
{
}

/// On the eve, at any hour but 23, a cycle ends in the sleep of 50 minutes,
/// and nothing is booked.
pub proof fn on_the_eve_the_run_approaches(
    parameters: ParameterFacts,
    state: StateFacts,
    event: EventFacts,
    now: Moment,
)
    requires
        session_ready(state, event, now),
        now.spec_weekday() == parameters.weekday.spec_pred(),
        now.spec_time().spec_hour() != 23,
    ensures
        next(parameters, state, event) == (
            StateFacts::ApproachingMidnight,
            ActionFacts::Sleep(APPROACH_SECONDS),
        ),
        APPROACH_SECONDS == 50 * 60,
{
}

/// On the eve, at 23 o'clock before minute 58, a cycle ends in the sleep of
/// one minute.
pub proof fn in_the_last_hour_the_run_is_armed(
    parameters: ParameterFacts,
    state: StateFacts,
    event: EventFacts,
    now: Moment,
)
    requires
        session_ready(state, event, now),
        now.spec_weekday() == parameters.weekday.spec_pred(),
        now.spec_time().spec_hour() == 23,
        now.spec_time().spec_minute() < 58,
    ensures
        next(parameters, state, event) == (
            StateFacts::ArmedForOpening,
            ActionFacts::Sleep(ARMED_SECONDS),
        ),
        ARMED_SECONDS == 60,
{
}

/// On the eve, from 23:58 on, a cycle goes on to watch the day fifteen days
/// after the day of the wake-up, whatever the time of day; where there is
/// no such day the run ends.
pub proof fn in_the_last_minutes_the_run_watches(
    parameters: ParameterFacts,
    state: StateFacts,
    event: EventFacts,
    now: Moment,
)
    requires
        session_ready(state, event, now),
        now.spec_weekday() == parameters.weekday.spec_pred(),
        now.spec_time().spec_hour() == 23,
        now.spec_time().spec_minute() >= 58,
    ensures
        match target_of(now.spec_date()) {
            Some(date) => next(parameters, state, event) == (
                StateFacts::Polling { cookie: state->Warming_cookie, date },
                ActionFacts::Send(day_facts(state->Warming_cookie, date, Reading::Text)),
            ),
            None => next(parameters, state, event) == stopped(Error::InvalidDate),
        },
{
}

/// A reply to the login that does not redirect, or redirects anywhere but
/// to the landing page, ends the run on an authentication failure: no state
/// with a session follows.
pub proof fn a_refused_login_ends_the_run(
    parameters: ParameterFacts,
    now: Moment,
    reply: ResponseFacts,
)
    requires
        reply.location != Some(crate::route::route_text(crate::session::LANDING_ROUTE@)),
    ensures
        next(parameters, StateFacts::Authenticating { now }, EventFacts::Replied(reply)) == stopped(
            Error::AuthenticationError,
        ),
{
}

/// Once the confirmation was sent, nothing more is sent in that cycle: the
/// run is idle again, or has ended.
pub proof fn one_confirmation_per_watch(parameters: ParameterFacts, event: EventFacts)
    ensures
        !(next(parameters, StateFacts::Confirming, event).1 is Send),
        next(parameters, StateFacts::Confirming, event).0 is Idle || next(
            parameters,
            StateFacts::Confirming,
            event,
        ).0 is Stopped,
{
}

/// While the day is closed the watch sleeps two seconds and looks again;
/// it never gives up.
pub proof fn a_closed_day_is_looked_at_again(
    parameters: ParameterFacts,
    cookie: Seq<char>,
    date: Date,
    reply: ResponseFacts,
    now: Moment,
)
    requires
        !listing_open(reply.body),
    ensures
        next(parameters, StateFacts::Polling { cookie, date }, EventFacts::Replied(reply)) == (
            StateFacts::BetweenPolls { cookie, date },
            ActionFacts::Sleep(2),
        ),
        next(parameters, StateFacts::BetweenPolls { cookie, date }, EventFacts::Woke(now)) == (
            StateFacts::Polling { cookie, date },
            ActionFacts::Send(day_facts(cookie, date, Reading::Text)),
        ),
{
}

/// The identifier read from the listing goes unchanged into the request for
/// the offer's page, and from there into the one confirmation, with the day
/// that was watched and one player.
pub proof fn the_chosen_id_is_what_is_booked(
    parameters: ParameterFacts,
    cookie: Seq<char>,
    date: Date,
    listing: ResponseFacts,
    page: ResponseFacts,
)
    requires
        next(
            parameters,
            StateFacts::Locating { cookie, date },
            EventFacts::Replied(listing),
        ).0 is Booking,
        page_participant(page.body).is_some(),
    ensures
        ({
            let located = next(
                parameters,
                StateFacts::Locating { cookie, date },
                EventFacts::Replied(listing),
            );
            let raw_id = located.0->Booking_raw_id;
            let booked = next(parameters, located.0, EventFacts::Replied(page));
            &&& page_candidates(listing.body, parameters.court_time.label()) matches Ok(ids)
            &&& selected_index(ids.len()) matches Some(chosen)
            &&& raw_id == ids[chosen as int]
            &&& located.1 == ActionFacts::Send(participant_facts(cookie, raw_id))
            &&& booked.0 is Confirming
            &&& booked.1 matches ActionFacts::Send(confirm)
            &&& confirm.form[0] == ("date"@, date.iso())
            &&& confirm.form[1] == ("idTspl"@, raw_id)
            &&& confirm.form[3] == ("nb_participants"@, "1"@)
        }),
{
}

/// The cookie of the session that a state holds, if it holds one.
pub open spec fn session_of(state: StateFacts) -> Option<Seq<char>> {
    match state {
        StateFacts::Warming { cookie, .. }
        | StateFacts::Polling { cookie, .. }
        | StateFacts::BetweenPolls { cookie, .. }
        | StateFacts::Locating { cookie, .. }
        | StateFacts::Booking { cookie, .. } => Some(cookie),
        _ => None,
    }
}

/// Whether `event` in `state` is the reply that accepts a login and sets
/// `cookie`.
pub open spec fn opens_session(state: StateFacts, event: EventFacts, cookie: Seq<char>) -> bool {
    &&& state is Authenticating
    &&& event matches EventFacts::Replied(reply)
    &&& login_accepted(reply)
    &&& reply.set_cookie == Some(cookie)
}

/// A state holds a session only if the state before it held that session,
/// or the login was just accepted and set that session's cookie: a refused
/// login never leads to one. And a request carries no other cookie than
/// that of the session before it or after it.
pub proof fn sessions_come_from_accepted_logins(
    parameters: ParameterFacts,
    state: StateFacts,
    event: EventFacts,
)
    ensures
        session_of(next(parameters, state, event).0) matches Some(cookie) ==> (session_of(state)
            == Some(cookie) || opens_session(state, event, cookie)),
        next(parameters, state, event).1 matches ActionFacts::Send(request) ==> (request.cookie
            .is_none() || request.cookie == session_of(state) || request.cookie == session_of(
            next(parameters, state, event).0,
        )),
{
}

} // verus!
