//! Asking for a day of the calendar, and telling whether it is open yet.

use vstd::prelude::*;
use crate::clock::Date;
use crate::http::{field, form_view, post, Field, Reading, Request, RequestFacts};
use crate::route::wanaplay_route;
use crate::session::{session_post, Session, PLANNING_ROUTE};
use crate::text::{chars_of, contains_text, find_text};

verus! {

/// What the site answers for a day that cannot be seen yet.
pub const FORBIDDEN_MARK: &'static str = "Vous ne pouvez pas voir le planning";

/// Seconds between two looks at a day that is still closed.
pub const POLL_SECONDS: u64 = 2;

/// The request for the listing of a day.
pub open spec fn day_facts(cookie: Seq<char>, date: Date, reading: Reading) -> RequestFacts {
    session_post(cookie, PLANNING_ROUTE@, "date"@, date.iso(), reading)
}

/// The request for the listing of a day: the day as `YYYY-MM-DD`, posted to
/// the calendar. A listing is read as text to see whether the day is open,
/// and as a page to find its cells.
pub fn day_request(session: &Session, date: Date, reading: Reading) -> (request: Request)
    ensures
        request@ == day_facts(session.cookie_text(), date, reading),
{
    let mut form: Vec<Field> = Vec::new();
    form.push(field("date", date.to_iso()));
    assert(form_view(form@) == seq![("date"@, date.iso())]);
    post(wanaplay_route(PLANNING_ROUTE), form, Some(session.cookie().clone()), true, reading)
}

/// Whether a listing shows its day: it does unless it holds the site's
/// refusal.
pub open spec fn listing_open(body: Seq<char>) -> bool {
    !contains_text(body, FORBIDDEN_MARK@)
}

/// Whether the day of a listing is open.
///
/// A listing is closed if and only if its body holds the site's refusal;
/// one without a single cell is open.
pub fn is_openned(body: &str) -> (open: bool)
    ensures
        open == listing_open(body@),
{
    let hay = chars_of(body);
    let needle = chars_of(FORBIDDEN_MARK);
    find_text(&hay, &needle).is_none()
}

} // verus!
