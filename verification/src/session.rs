//! Logging in, and the session that a login opens.

use vstd::prelude::*;
use crate::error::Error;
use crate::http::{
    field, form_view, post, Field, Method, Reading, Request, RequestFacts, Response,
    ResponseFacts,
};
use crate::route::{route_text, wanaplay_route};

verus! {

/// Route of the login form.
pub const LOGIN_ROUTE: &'static str = "auth/doLogin";

/// Route that an accepted login redirects to.
pub const LANDING_ROUTE: &'static str = "auth/infos";

/// Route of the calendar.
pub const PLANNING_ROUTE: &'static str = "reservation/planning2";

/// The day asked for in the request that a fresh session starts with.
pub const WARM_UP_DATE: &'static str = "2018-12-24";

/// A session of the site: the cookie that an accepted login set.
///
/// Only `authenticate` makes one.
pub struct Session {
    cookie: String,
}

impl Session {
    /// The session's cookie, as a value of specifications.
    pub closed spec fn cookie_text(&self) -> Seq<char> {
        self.cookie@
    }

    /// The session's cookie.
    pub fn cookie(&self) -> (cookie: &String)
        ensures
            cookie@ == self.cookie_text(),
    {
        &self.cookie
    }
}

/// The request that logs in.
pub open spec fn login_facts(login: Seq<char>, crypted_password: Seq<char>) -> RequestFacts {
    RequestFacts {
        method: Method::Post,
        url: route_text(LOGIN_ROUTE@),
        form: seq![("login"@, login), ("sha1mdp"@, crypted_password)],
        cookie: None,
        follow_redirects: false,
        reading: Reading::Headers,
    }
}

/// The request that logs in: the login and the digest of the password,
/// posted to the login form, with redirects left alone.
pub fn login_request(login: String, crypted_password: String) -> (request: Request)
    ensures
        request@ == login_facts(login@, crypted_password@),
{
    let mut form: Vec<Field> = Vec::new();
    form.push(field("login", login));
    form.push(field("sha1mdp", crypted_password));
    assert(form_view(form@) == seq![("login"@, login@), ("sha1mdp"@, crypted_password@)]);
    post(wanaplay_route(LOGIN_ROUTE), form, None, false, Reading::Headers)
}

/// Whether a reply to the login accepts it: it redirects to the landing
/// page, and it sets the session's cookie.
pub open spec fn login_accepted(reply: ResponseFacts) -> bool {
    &&& reply.location == Some(route_text(LANDING_ROUTE@))
    &&& reply.set_cookie.is_some()
}

/// The session that a reply to the login opens.
///
/// A reply that does not redirect, or redirects anywhere but to the landing
/// page, opens none; neither does one that sets no cookie.
pub fn authenticate(reply: &Response) -> (session: Result<Session, Error>)
    ensures
        session.is_ok() == login_accepted(reply@),
        session matches Ok(s) ==> Some(s.cookie_text()) == reply@.set_cookie,
        session matches Err(e) ==> e == Error::AuthenticationError,
{
    let landing = wanaplay_route(LANDING_ROUTE);
    match &reply.location {
        None => Err(Error::AuthenticationError),
        Some(location) => {
            if *location != landing {
                return Err(Error::AuthenticationError);
            }
            match &reply.set_cookie {
                None => Err(Error::AuthenticationError),
                Some(cookie) => Ok(Session { cookie: cookie.clone() }),
            }
        },
    }
}

/// A posted form of one field that belongs to a session.
pub open spec fn session_post(
    cookie: Seq<char>,
    route: Seq<char>,
    name: Seq<char>,
    value: Seq<char>,
    reading: Reading,
) -> RequestFacts {
    RequestFacts {
        method: Method::Post,
        url: route_text(route),
        form: seq![(name, value)],
        cookie: Some(cookie),
        follow_redirects: true,
        reading,
    }
}

/// The request that a fresh session starts with: the site wants the
/// calendar asked for once, for any day, before it serves the session.
pub open spec fn warm_up_facts(cookie: Seq<char>) -> RequestFacts {
    session_post(cookie, PLANNING_ROUTE@, "date"@, WARM_UP_DATE@, Reading::Headers)
}

/// The request that a fresh session starts with. Its reply is of no
/// interest.
pub fn warm_up_request(session: &Session) -> (request: Request)
    ensures
        request@ == warm_up_facts(session.cookie_text()),
{
    let mut form: Vec<Field> = Vec::new();
    form.push(field("date", WARM_UP_DATE.to_owned()));
    assert(form_view(form@) == seq![("date"@, WARM_UP_DATE@)]);
    post(
        wanaplay_route(PLANNING_ROUTE),
        form,
        Some(session.cookie.clone()),
        true,
        Reading::Headers,
    )
}

} // verus!
