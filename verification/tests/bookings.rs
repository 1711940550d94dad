use wanaplay_booker::bookings::{
    booking_from_groups, booking_from_parts, bookings_of_day, bookings_request, get_bookings,
    ser_from_naive_date,
};
use wanaplay_booker::clock::Date;
use wanaplay_booker::error::Error;
use wanaplay_booker::http::{Method, Reading, Response};
use wanaplay_booker::session::authenticate;

fn link(href: &str, line: &str) -> String {
    format!("<a class=\"lienMyRes\" href=\"{}\"><span>{}</span></a>", href, line)
}

fn page(links: &[String]) -> String {
    format!("<html><body>{}</body></html>", links.concat())
}

#[test]
fn bookings_page_is_asked_for_with_the_session() {
    let session = authenticate(&Response {
        location: Some("http://fr.wanaplay.com/auth/infos".to_string()),
        set_cookie: Some("sid=abc".to_string()),
        body: String::new(),
    })
    .ok()
    .unwrap();
    let request = bookings_request(&session);
    assert_eq!(request.method, Method::Get);
    assert_eq!(request.url, "http://fr.wanaplay.com/plannings/espacesportifpontoise");
    assert!(request.form.is_empty());
    assert_eq!(request.reading, Reading::Page);
    assert_eq!(request.cookie.as_deref(), Some("sid=abc"));
}

#[test]
fn day_is_written_as_the_site_shows_it() {
    assert_eq!(ser_from_naive_date(&Date::new(2019, 4, 8).unwrap()), "08/04/2019");
}

#[test]
fn bookings_are_read_in_the_order_of_the_page() {
    let markup = page(&[
        link("/reservation/show/981", "18/04/2019\u{a0}18:20\u{a0}Court 3"),
        link("/reservation/show/1002", "25/04/2019\u{a0}09:40\u{a0}Court 1"),
    ]);
    let bookings = get_bookings(&markup).ok().unwrap();
    assert_eq!(bookings.len(), 2);
    assert_eq!(bookings[0].id, "981");
    assert_eq!(bookings[0].date.to_iso(), "2019-04-18");
    assert_eq!(bookings[0].court_time, "18:20");
    assert_eq!(bookings[0].court_number, 3);
    assert_eq!(bookings[1].id, "1002");
    assert_eq!(bookings[1].date.to_iso(), "2019-04-25");
    assert_eq!(bookings[1].court_time, "09:40");
    assert_eq!(bookings[1].court_number, 1);
}

#[test]
fn page_without_links_has_no_booking() {
    assert!(get_bookings("<html><body></body></html>").ok().unwrap().is_empty());
}

#[test]
fn address_without_slash_is_the_id() {
    let markup = page(&[link("981", "18/04/2019\u{a0}18:20\u{a0}Court 3")]);
    assert_eq!(get_bookings(&markup).ok().unwrap()[0].id, "981");
    let markup = page(&[link("/show/", "18/04/2019\u{a0}18:20\u{a0}Court 3")]);
    assert_eq!(get_bookings(&markup).ok().unwrap()[0].id, "");
}

#[test]
fn link_that_does_not_read_makes_the_page_unreadable() {
    for line in [
        "18/04/2019 18:20 Court 3",
        "18/04/2019\u{a0}18:20\u{a0}Terrain 3",
        "31/02/2019\u{a0}18:20\u{a0}Court 3",
        "2019-04-18\u{a0}18:20\u{a0}Court 3",
        "",
    ] {
        let markup = page(&[
            link("/show/1", "18/04/2019\u{a0}18:20\u{a0}Court 3"),
            link("/show/2", line),
        ]);
        assert_eq!(get_bookings(&markup).err(), Some(Error::ParseError));
    }
    let markup = "<html><body><a class=\"lienMyRes\"><span>18/04/2019\u{a0}18:20\u{a0}Court 3</span></a></body></html>";
    assert_eq!(get_bookings(markup).err(), Some(Error::ParseError));
    let markup = "<html><body><a class=\"lienMyRes\" href=\"/show/1\"></a></body></html>";
    assert_eq!(get_bookings(markup).err(), Some(Error::ParseError));
}

#[test]
fn booking_is_made_of_its_parts() {
    let b = booking_from_parts(
        Some((2019, 4, 18)),
        &"18:20".to_string(),
        &"3".to_string(),
        &"/a/b/981".to_string(),
    )
    .unwrap();
    assert_eq!((b.id.as_str(), b.court_time.as_str(), b.court_number), ("981", "18:20", 3));
    assert_eq!(b.date.to_day_first(), "18/04/2019");
    let none = |day, court: &str| {
        booking_from_parts(day, &"18:20".to_string(), &court.to_string(), &"/981".to_string()).is_none()
    };
    assert!(none(None, "3"));
    assert!(none(Some((12019, 4, 18)), "3"));
    assert!(none(Some((2019, 4, 18)), "12"));
    assert!(none(Some((2019, 4, 18)), "x"));
    assert!(none(Some((2019, 4, 18)), ""));
    assert!(none(Some((2019, 4, 18)), "\u{663}"));
    assert!(!none(Some((2019, 4, 18)), "0"));
    assert!(!none(Some((2019, 4, 18)), "9"));
}

#[test]
fn booking_is_made_of_captured_groups() {
    let groups = vec![
        Some("18/04/2019\u{a0}18:20\u{a0}Court 3".to_string()),
        Some("18/04/2019".to_string()),
        Some("18:20".to_string()),
        Some("3".to_string()),
    ];
    let b = booking_from_groups(&groups, &"/show/981".to_string()).unwrap();
    assert_eq!(b.date.to_iso(), "2019-04-18");
    assert_eq!(b.court_number, 3);
    let short = vec![Some("x".to_string()), Some("18/04/2019".to_string()), Some("18:20".to_string())];
    assert!(booking_from_groups(&short, &"/show/981".to_string()).is_none());
    let holed = vec![Some("x".to_string()), None, Some("18:20".to_string()), Some("3".to_string())];
    assert!(booking_from_groups(&holed, &"/show/981".to_string()).is_none());
}

#[test]
fn bookings_of_a_day_keep_their_order() {
    let markup = page(&[
        link("/show/1", "18/04/2019\u{a0}18:20\u{a0}Court 3"),
        link("/show/2", "25/04/2019\u{a0}09:40\u{a0}Court 1"),
        link("/show/3", "18/04/2019\u{a0}19:00\u{a0}Court 2"),
    ]);
    let bookings = get_bookings(&markup).ok().unwrap();
    let day = bookings_of_day(&bookings, Date::new(2019, 4, 18).unwrap());
    let ids: Vec<&str> = day.iter().map(|b| b.id.as_str()).collect();
    assert_eq!(ids, vec!["1", "3"]);
    assert_eq!(day[1].court_time, "19:00");
    assert_eq!(day[1].court_number, 2);
    assert!(bookings_of_day(&bookings, Date::new(2019, 4, 19).unwrap()).is_empty());
    assert!(bookings_of_day(&Vec::new(), Date::new(2019, 4, 18).unwrap()).is_empty());
}
