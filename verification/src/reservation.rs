//! Booking an offer: who books, and the form that confirms.

use vstd::prelude::*;
use crate::clock::Date;
use crate::error::Error;
use crate::http::{field, form_view, post, Field, Method, Reading, Request, RequestFacts};
use crate::markup::{
    attr_nodes, attr_of, find_attr, first_child_of, fits, node_attr, node_first_child, node_text,
    page_fits, parse, text_of_node,
};
use crate::route::{route_text, wanaplay_route};
use crate::session::{session_post, Session};

verus! {

/// Route of the page that shows an offer before it is taken.
pub const SHOW_ROUTE: &'static str = "reservation/takeReservationShow";

/// Route that takes an offer.
pub const TAKE_ROUTE: &'static str = "reservation/takeReservationBase";

/// Name of the form field that holds an offer's identifier.
pub const ID_FIELD: &'static str = "idTspl";

/// `id` attribute of the form field that lists who plays.
pub const PARTICIPANT_FIELD: &'static str = "users_0";

/// The member who books, as the booking form knows them.
pub struct UserInfos {
    pub id: String,
    pub name: String,
}

/// How one attempt to book ended.
#[derive(Clone, Copy, Debug, PartialEq, Eq, Structural)]
pub enum ReservationOutcome {
    /// The confirmation was sent.
    Confirmed,
    /// Nothing was booked.
    Failed(Error),
}

/// The request for the page that shows an offer.
pub open spec fn participant_facts(cookie: Seq<char>, raw_id: Seq<char>) -> RequestFacts {
    session_post(cookie, SHOW_ROUTE@, ID_FIELD@, raw_id, Reading::Page)
}

/// The request for the page that shows an offer and who would book it. The
/// offer's identifier goes into it as it is.
pub fn participant_request(session: &Session, raw_id: &String) -> (request: Request)
    ensures
        request@ == participant_facts(session.cookie_text(), raw_id@),
{
    let mut form: Vec<Field> = Vec::new();
    form.push(field(ID_FIELD, raw_id.clone()));
    assert(form_view(form@) == seq![(ID_FIELD@, raw_id@)]);
    post(wanaplay_route(SHOW_ROUTE), form, Some(session.cookie().clone()), true, Reading::Page)
}

/// The member that a page names: the `value` attribute and the text of the
/// first node below the first node whose `id` is `users_0`. A page too long
/// to be parsed names none.
pub open spec fn page_participant(markup: Seq<char>) -> Option<(Seq<char>, Seq<char>)> {
    let fields = attr_nodes(markup, "id"@, PARTICIPANT_FIELD@);
    if !page_fits(markup) || fields.len() == 0 {
        None
    } else {
        match node_first_child(markup, fields[0]) {
            None => None,
            Some(entry) => match (node_attr(markup, entry, "value"@), node_text(markup, entry)) {
                (Some(id), Some(name)) => Some((id, name)),
                _ => None,
            },
        }
    }
}

/// The member who books, read from the page that shows an offer.
///
/// The page is unreadable where it is too long to be parsed, has no field
/// `users_0`, the field has nothing below it, or its first entry has no
/// value.
pub fn get_user_infos(markup: &str) -> (infos: Result<UserInfos, Error>)
    ensures
        match infos {
            Ok(user) => page_participant(markup@) == Some((user.id@, user.name@)),
            Err(e) => e == Error::ParseError && page_participant(markup@).is_none(),
        },
{
    if !fits(markup) {
        return Err(Error::ParseError);
    }
    let document = parse(markup);
    let fields = find_attr(&document, "id", PARTICIPANT_FIELD);
    if fields.len() == 0 {
        return Err(Error::ParseError);
    }
    let entry = match first_child_of(&document, fields[0]) {
        None => { return Err(Error::ParseError); },
        Some(entry) => entry,
    };
    let id = attr_of(&document, entry, "value");
    let name = text_of_node(&document, entry);
    match (id, name) {
        (Some(id), Some(name)) => Ok(UserInfos { id, name }),
        _ => Err(Error::ParseError),
    }
}

/// The request that confirms a booking.
pub open spec fn confirm_facts(
    cookie: Seq<char>,
    date: Date,
    raw_id: Seq<char>,
    user_id: Seq<char>,
    user_name: Seq<char>,
) -> RequestFacts {
    RequestFacts {
        method: Method::Post,
        url: route_text(TAKE_ROUTE@),
        form: seq![
            ("date"@, date.iso()),
            (ID_FIELD@, raw_id),
            ("commit"@, "Confirmer"@),
            ("nb_participants"@, "1"@),
            ("tab_users_id_0"@, user_id),
            ("tab_users_name_0"@, user_name),
        ],
        cookie: Some(cookie),
        follow_redirects: true,
        reading: Reading::Headers,
    }
}

/// The request that confirms the booking of an offer on a day, for one
/// player: the member who books. The offer's identifier goes into it as it
/// is.
pub fn book(session: &Session, user_infos: &UserInfos, id_booking: &String, date: Date) -> (request:
    Request)
    ensures
        request@ == confirm_facts(
            session.cookie_text(),
            date,
            id_booking@,
            user_infos.id@,
            user_infos.name@,
        ),
{
    let mut form: Vec<Field> = Vec::new();
    form.push(field("date", date.to_iso()));
    form.push(field(ID_FIELD, id_booking.clone()));
    form.push(field("commit", "Confirmer".to_owned()));
    form.push(field("nb_participants", "1".to_owned()));
    form.push(field("tab_users_id_0", user_infos.id.clone()));
    form.push(field("tab_users_name_0", user_infos.name.clone()));
    assert(form_view(form@) == seq![
        ("date"@, date.iso()),
        (ID_FIELD@, id_booking@),
        ("commit"@, "Confirmer"@),
        ("nb_participants"@, "1"@),
        ("tab_users_id_0"@, user_infos.id@),
        ("tab_users_name_0"@, user_infos.name@),
    ]);
    post(
        wanaplay_route(TAKE_ROUTE),
        form,
        Some(session.cookie().clone()),
        true,
        Reading::Headers,
    )
}

} // verus!
