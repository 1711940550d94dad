use wanaplay_booker::calendar::{day_request, is_openned};
use wanaplay_booker::clock::Date;
use wanaplay_booker::error::Error;
use wanaplay_booker::http::{Method, Reading, Request, Response};
use wanaplay_booker::reservation::{book, get_user_infos, participant_request};
use wanaplay_booker::session::{authenticate, login_request, warm_up_request, Session};

fn reply(location: Option<&str>, set_cookie: Option<&str>) -> Response {
    Response {
        location: location.map(String::from),
        set_cookie: set_cookie.map(String::from),
        body: String::new(),
    }
}

fn session() -> Session {
    authenticate(&reply(Some("http://fr.wanaplay.com/auth/infos"), Some("sid=abc"))).ok().unwrap()
}

fn form_of(request: &Request) -> Vec<(&str, &str)> {
    request.form.iter().map(|f| (f.name.as_str(), f.value.as_str())).collect()
}

#[test]
fn login_is_posted_without_following_redirects() {
    let request = login_request("jane".to_string(), "a9993e".to_string());
    assert_eq!(request.method, Method::Post);
    assert_eq!(request.url, "http://fr.wanaplay.com/auth/doLogin");
    assert_eq!(form_of(&request), vec![("login", "jane"), ("sha1mdp", "a9993e")]);
    assert_eq!(request.cookie, None);
    assert!(!request.follow_redirects);
    assert_eq!(request.reading, Reading::Headers);
}

#[test]
fn redirect_to_the_landing_page_opens_a_session() {
    assert_eq!(session().cookie(), "sid=abc");
}

#[test]
fn reply_without_redirect_opens_no_session() {
    assert_eq!(authenticate(&reply(None, Some("sid=abc"))).err(), Some(Error::AuthenticationError));
}

#[test]
fn redirect_elsewhere_opens_no_session() {
    for location in [
        "http://fr.wanaplay.com/auth/login",
        "http://fr.wanaplay.com/auth/infos/",
        "http://fr.wanaplay.com/auth/info",
        "https://fr.wanaplay.com/auth/infos",
        "/auth/infos",
        "",
    ] {
        assert_eq!(
            authenticate(&reply(Some(location), Some("sid=abc"))).err(),
            Some(Error::AuthenticationError)
        );
    }
}

#[test]
fn accepted_login_without_cookie_opens_no_session() {
    assert_eq!(
        authenticate(&reply(Some("http://fr.wanaplay.com/auth/infos"), None)).err(),
        Some(Error::AuthenticationError)
    );
}

#[test]
fn fresh_session_asks_for_the_calendar_once() {
    let request = warm_up_request(&session());
    assert_eq!(request.method, Method::Post);
    assert_eq!(request.url, "http://fr.wanaplay.com/reservation/planning2");
    assert_eq!(form_of(&request), vec![("date", "2018-12-24")]);
    assert_eq!(request.cookie.as_deref(), Some("sid=abc"));
    assert!(request.follow_redirects);
    assert_eq!(request.reading, Reading::Headers);
}

#[test]
fn day_is_asked_for_year_first() {
    let request = day_request(&session(), Date::new(2019, 2, 6).unwrap(), Reading::Page);
    assert_eq!(request.reading, Reading::Page);
    assert_eq!(request.method, Method::Post);
    assert_eq!(request.url, "http://fr.wanaplay.com/reservation/planning2");
    assert_eq!(form_of(&request), vec![("date", "2019-02-06")]);
    assert_eq!(request.cookie.as_deref(), Some("sid=abc"));
}

#[test]
fn listing_with_the_refusal_is_closed() {
    assert!(!is_openned("<html><body>Vous ne pouvez pas voir le planning</body></html>"));
    assert!(!is_openned("Vous ne pouvez pas voir le planning"));
    assert!(!is_openned("xVous ne pouvez pas voir le planning de ce jour"));
}

#[test]
fn listing_without_the_refusal_is_open() {
    assert!(is_openned("<html><body></body></html>"));
    assert!(is_openned(""));
    assert!(is_openned("Vous ne pouvez pas voir le plannin"));
    assert!(is_openned("vous ne pouvez pas voir le planning"));
    assert!(is_openned("<div class=\"creneauLibre\"><p><span>09:40</span></p></div>"));
}

#[test]
fn offer_page_is_asked_for_by_its_id() {
    let request = participant_request(&session(), &"12345".to_string());
    assert_eq!(request.method, Method::Post);
    assert_eq!(request.url, "http://fr.wanaplay.com/reservation/takeReservationShow");
    assert_eq!(form_of(&request), vec![("idTspl", "12345")]);
    assert_eq!(request.cookie.as_deref(), Some("sid=abc"));
    assert_eq!(request.reading, Reading::Page);
}

#[test]
fn member_is_read_from_the_offer_page() {
    let page = "<html><body><form><select id=\"users_0\"><option value=\"42\">Jane Doe</option><option value=\"43\">John</option></select></form></body></html>";
    let user = get_user_infos(page).ok().unwrap();
    assert_eq!(user.id, "42");
    assert_eq!(user.name, "Jane Doe");
}

#[test]
fn offer_page_without_member_is_unreadable() {
    assert_eq!(get_user_infos("<html><body></body></html>").err(), Some(Error::ParseError));
    assert_eq!(
        get_user_infos("<html><body><select id=\"users_0\"></select></body></html>").err(),
        Some(Error::ParseError)
    );
    assert_eq!(
        get_user_infos("<html><body><select id=\"users_0\"><option>Jane</option></select></body></html>").err(),
        Some(Error::ParseError)
    );
    assert_eq!(
        get_user_infos("<html><body><select id=\"users_1\"><option value=\"42\">Jane</option></select></body></html>").err(),
        Some(Error::ParseError)
    );
}

#[test]
fn confirmation_carries_day_id_and_member() {
    let user = get_user_infos(
        "<html><body><select id=\"users_0\"><option value=\"42\">Jane Doe</option></select></body></html>",
    )
    .ok()
    .unwrap();
    let request = book(&session(), &user, &"12345".to_string(), Date::new(2019, 2, 6).unwrap());
    assert_eq!(request.method, Method::Post);
    assert_eq!(request.url, "http://fr.wanaplay.com/reservation/takeReservationBase");
    assert_eq!(
        form_of(&request),
        vec![
            ("date", "2019-02-06"),
            ("idTspl", "12345"),
            ("commit", "Confirmer"),
            ("nb_participants", "1"),
            ("tab_users_id_0", "42"),
            ("tab_users_name_0", "Jane Doe"),
        ]
    );
    assert_eq!(request.cookie.as_deref(), Some("sid=abc"));
    assert_eq!(request.reading, Reading::Headers);
}
