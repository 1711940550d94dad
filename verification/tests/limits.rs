use wanaplay_booker::bookings::{booking_links, get_bookings};
use wanaplay_booker::clock::TimeOfDay;
use wanaplay_booker::error::Error;
use wanaplay_booker::markup::{fits, MAX_PAGE_CHARS};
use wanaplay_booker::reservation::get_user_infos;
use wanaplay_booker::slots::{find_book_ids, free_cells};

#[test]
fn pages_of_ordinary_length_fit() {
    assert!(fits(""));
    assert!(fits("<html></html>"));
    assert_eq!(MAX_PAGE_CHARS, 536_870_911);
}

#[test]
fn page_too_long_for_the_parser_is_unreadable() {
    let page = "a".repeat(MAX_PAGE_CHARS + 1);
    assert!(!fits(&page));
    let time = TimeOfDay::new(9, 40, 0, 0).unwrap();
    assert_eq!(find_book_ids(&page, time).err(), Some(Error::ParseError));
    assert_eq!(free_cells(&page).err(), Some(Error::ParseError));
    assert_eq!(get_user_infos(&page).err(), Some(Error::ParseError));
    assert_eq!(get_bookings(&page).err(), Some(Error::ParseError));
    assert_eq!(booking_links(&page).err(), Some(Error::ParseError));
}
