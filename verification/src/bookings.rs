//! The bookings that the site lists for the account.

use vstd::prelude::*;
use crate::clock::{date_in_range, date_read, read_date, Date};
use crate::error::Error;
use crate::http::{Method, Reading, Request, RequestFacts};
use crate::markup::{
    attr_of, class_nodes, document_source, find_class, first_child_of, fits, node_attr,
    node_first_child, node_text, page_fits, parse, text_of_node,
};
use crate::pattern::{capture, captured, groups_view};
use crate::route::{route_text, wanaplay_route};
use crate::session::Session;
use crate::text::{
    after_last, chars_of, digit_value, end_of_last, read_digit, slice_of, text_of, text_view,
};
use select::document::Document;

verus! {

/// Route of the page that lists the account's bookings.
pub const BOOKINGS_ROUTE: &'static str = "plannings/espacesportifpontoise";

/// Class of a link to one of the account's bookings.
pub const BOOKING_LINK_CLASS: &'static str = "lienMyRes";

/// How a booking's link reads: the day, the time and the court's number,
/// set apart by no-break spaces.
pub const BOOKING_LINE: &'static str = r"(.+)\u{a0}(.+)\u{a0}Court (\d)";

/// How the site writes a day in a list of bookings.
pub const WANAPLAY_DATE_FORMAT: &'static str = "%d/%m/%Y";

/// A booking of the account.
pub struct Booking {
    pub id: String,
    pub date: Date,
    pub court_time: String,
    pub court_number: u8,
}

/// A booking as a value of specifications.
pub ghost struct BookingFacts {
    pub id: Seq<char>,
    pub date: Date,
    pub court_time: Seq<char>,
    pub court_number: u8,
}

impl View for Booking {
    type V = BookingFacts;

    open spec fn view(&self) -> BookingFacts {
        BookingFacts {
            id: self.id@,
            date: self.date,
            court_time: self.court_time@,
            court_number: self.court_number,
        }
    }
}

/// A booking as an optional value of specifications.
pub open spec fn booking_view(booking: Option<Booking>) -> Option<BookingFacts> {
    match booking {
        Some(b) => Some(b@),
        None => None,
    }
}

/// The request for the page that lists the account's bookings.
pub open spec fn bookings_facts(cookie: Seq<char>) -> RequestFacts {
    RequestFacts {
        method: Method::Get,
        url: route_text(BOOKINGS_ROUTE@),
        form: Seq::empty(),
        cookie: Some(cookie),
        follow_redirects: true,
        reading: Reading::Page,
    }
}

/// The request for the page that lists the account's bookings.
pub fn bookings_request(session: &Session) -> (request: Request)
    ensures
        request@ == bookings_facts(session.cookie_text()),
{
    let request = Request {
        method: Method::Get,
        url: wanaplay_route(BOOKINGS_ROUTE),
        form: Vec::new(),
        cookie: Some(session.cookie().clone()),
        follow_redirects: true,
        reading: Reading::Page,
    };
    assert(request@.form == Seq::<(Seq<char>, Seq<char>)>::empty());
    request
}

/// The day as the site shows it in a list of bookings: `DD/MM/YYYY`.
pub fn ser_from_naive_date(date: &Date) -> (text: String)
    ensures
        text@ == date.day_first(),
{
    date.to_day_first()
}

/// The identifier in the address of a booking's link: what follows its
/// last `/`, or all of it.
pub open spec fn booking_id(href: Seq<char>) -> Seq<char> {
    href.skip(after_last(href, '/'))
}

/// The booking made of a day that was read or not, a time, the text of a
/// court's number and the address of the link.
pub open spec fn booking_on(
    day: Option<(i32, u32, u32)>,
    court_time: Seq<char>,
    court: Seq<char>,
    href: Seq<char>,
) -> Option<BookingFacts> {
    match (day, digit_value(court)) {
        (Some((year, month, day)), Some(court_number)) => if date_in_range(
            year as int,
            month as int,
            day as int,
        ) {
            Some(
                BookingFacts {
                    id: booking_id(href),
                    date: Date::of(year, month, day),
                    court_time,
                    court_number,
                },
            )
        } else {
            None
        },
        _ => None,
    }
}

/// The booking made of a day that was read or not, a time, the text of a
/// court's number and the address of the link.
///
/// There is none where no day was read, the day cannot be held, or the
/// court's number is not one decimal digit.
pub fn booking_from_parts(
    day: Option<(i32, u32, u32)>,
    court_time: &String,
    court: &String,
    href: &String,
) -> (booking: Option<Booking>)
    ensures
        booking_view(booking) == booking_on(day, court_time@, court@, href@),
{
    let (year, month, day) = match day {
        Some(parts) => parts,
        None => { return None; },
    };
    let court_number = match read_digit(court.as_str()) {
        Some(number) => number,
        None => { return None; },
    };
    let date = match Date::new(year, month, day) {
        Some(date) => date,
        None => { return None; },
    };
    let address = chars_of(href.as_str());
    let from: usize = end_of_last(&address, '/');
    let id = text_of(&slice_of(&address, from, address.len()));
    Some(Booking { id, date, court_time: court_time.clone(), court_number })
}

/// The booking made of the groups captured in a link's line and of the
/// link's address.
pub open spec fn booking_of_groups(groups: Seq<Option<Seq<char>>>, href: Seq<char>) -> Option<
    BookingFacts,
> {
    if groups.len() < 4 {
        None
    } else {
        match (groups[1], groups[2], groups[3]) {
            (Some(day), Some(court_time), Some(court)) => booking_on(
                date_read(day, WANAPLAY_DATE_FORMAT@),
                court_time,
                court,
                href,
            ),
            _ => None,
        }
    }
}

/// The booking made of the groups captured in a link's line and of the
/// link's address; the day is what chrono reads in the first group under
/// the site's format.
pub fn booking_from_groups(groups: &Vec<Option<String>>, href: &String) -> (booking: Option<
    Booking,
>)
    ensures
        booking_view(booking) == booking_of_groups(
            groups_view(Some(*groups)).unwrap(),
            href@,
        ),
{
    if groups.len() < 4 {
        return None;
    }
    match (&groups[1], &groups[2], &groups[3]) {
        (Some(day), Some(court_time), Some(court)) => {
            let read = read_date(day.as_str(), WANAPLAY_DATE_FORMAT);
            booking_from_parts(read, court_time, court, href)
        },
        _ => None,
    }
}

/// What is read of one link to a booking.
pub struct BookingLink {
    /// The text of the first node below the link.
    pub line: Option<String>,
    /// The link's `href` attribute.
    pub href: Option<String>,
}

/// A link as a value of specifications.
pub ghost struct LinkFacts {
    pub line: Option<Seq<char>>,
    pub href: Option<Seq<char>>,
}

impl View for BookingLink {
    type V = LinkFacts;

    open spec fn view(&self) -> LinkFacts {
        LinkFacts { line: text_view(self.line), href: text_view(self.href) }
    }
}

/// The booking that a link stands for.
pub open spec fn booking_of_link(link: LinkFacts) -> Option<BookingFacts> {
    match (link.line, link.href) {
        (Some(line), Some(href)) => match captured(BOOKING_LINE@, line) {
            Some(groups) => booking_of_groups(groups, href),
            None => None,
        },
        _ => None,
    }
}

/// The booking that a link stands for: its line is matched against the
/// pattern of such lines, and the groups make the booking.
pub fn booking_from_link(link: &BookingLink) -> (booking: Option<Booking>)
    ensures
        booking_view(booking) == booking_of_link(link@),
{
    match (&link.line, &link.href) {
        (Some(line), Some(href)) => match capture(BOOKING_LINE, line.as_str()) {
            Some(groups) => booking_from_groups(&groups, href),
            None => None,
        },
        _ => None,
    }
}

/// What is read of a node of a page as a link to a booking.
pub open spec fn page_link(markup: Seq<char>, node: usize) -> LinkFacts {
    LinkFacts {
        line: match node_first_child(markup, node) {
            Some(child) => node_text(markup, child),
            None => None,
        },
        href: node_attr(markup, node, "href"@),
    }
}

/// The links to bookings of a page, in document order.
pub open spec fn page_links(markup: Seq<char>) -> Seq<LinkFacts> {
    class_nodes(markup, BOOKING_LINK_CLASS@).map_values(|node: usize| page_link(markup, node))
}

/// The bookings that links stand for, in their order, where each link
/// stands for one.
pub open spec fn bookings_of(links: Seq<LinkFacts>) -> Option<Seq<BookingFacts>> {
    if forall|k: int| 0 <= k < links.len() ==> (#[trigger] booking_of_link(links[k])).is_some() {
        Some(Seq::new(links.len(), |k: int| booking_of_link(links[k]).unwrap()))
    } else {
        None
    }
}

/// Links as values of specifications.
pub open spec fn link_views(links: Seq<BookingLink>) -> Seq<LinkFacts> {
    links.map_values(|link: BookingLink| link@)
}

/// Bookings as values of specifications.
pub open spec fn booking_views(bookings: Seq<Booking>) -> Seq<BookingFacts> {
    bookings.map_values(|booking: Booking| booking@)
}

/// The bookings that links stand for, in their order.
///
/// One link that stands for none makes the list unreadable.
pub fn bookings_among(links: &Vec<BookingLink>) -> (bookings: Result<Vec<Booking>, Error>)
    ensures
        match bookings {
            Ok(found) => bookings_of(link_views(links@)) == Some(booking_views(found@)),
            Err(e) => e == Error::ParseError && bookings_of(link_views(links@)).is_none(),
        },
{
    let mut found: Vec<Booking> = Vec::new();
    let mut k: usize = 0;
    while k < links.len()
        invariant
            k <= links.len(),
            found.len() == k,
            forall|j: int|
                0 <= j < k ==> (#[trigger] booking_of_link(link_views(links@)[j])) == Some(
                    found[j]@,
                ),
        decreases links.len() - k,
    {
        match booking_from_link(&links[k]) {
            Some(booking) => {
                found.push(booking);
            },
            None => {
                assert(booking_of_link(link_views(links@)[k as int]).is_none());
                return Err(Error::ParseError);
            },
        }
        k += 1;
    }
    assert(booking_views(found@) == Seq::new(
        link_views(links@).len(),
        |k: int| booking_of_link(link_views(links@)[k]).unwrap(),
    ));
    Ok(found)
}

fn read_link(document: &Document, node: usize) -> (link: BookingLink)
    ensures
        link@ == page_link(document_source(*document), node),
{
    let line = match first_child_of(document, node) {
        Some(child) => text_of_node(document, child),
        None => None,
    };
    let href = attr_of(document, node, "href");
    BookingLink { line, href }
}

/// The links to bookings of the page that lists them, in document order.
///
/// A page too long to be parsed is unreadable.
pub fn booking_links(markup: &str) -> (links: Result<Vec<BookingLink>, Error>)
    ensures
        match links {
            Ok(found) => page_fits(markup@) && link_views(found@) == page_links(markup@),
            Err(e) => e == Error::ParseError && !page_fits(markup@),
        },
{
    if !fits(markup) {
        return Err(Error::ParseError);
    }
    let document = parse(markup);
    let nodes = find_class(&document, BOOKING_LINK_CLASS);
    let mut links: Vec<BookingLink> = Vec::new();
    let mut k: usize = 0;
    while k < nodes.len()
        invariant
            k <= nodes.len(),
            document_source(document) == markup@,
            nodes@ == class_nodes(markup@, BOOKING_LINK_CLASS@),
            link_views(links@) == page_links(markup@).take(k as int),
        decreases nodes.len() - k,
    {
        let link = read_link(&document, nodes[k]);
        let ghost before = link_views(links@);
        links.push(link);
        k += 1;
        assert(link_views(links@) == before.push(link@));
        assert(link_views(links@) == page_links(markup@).take(k as int));
    }
    assert(page_links(markup@).take(k as int) == page_links(markup@));
    Ok(links)
}

/// The bookings that a page lists, in document order, where it is short
/// enough to be parsed and each of its links stands for a booking.
pub open spec fn page_bookings(markup: Seq<char>) -> Option<Seq<BookingFacts>> {
    if page_fits(markup) {
        bookings_of(page_links(markup))
    } else {
        None
    }
}

/// The account's bookings, read from the page that lists them, in the
/// order of the page.
///
/// Each link of the class of such links stands for a booking: its line
/// gives the day, the time and the court, its address the identifier. A
/// link that does not read so makes the page unreadable; so does a length
/// that the parser cannot take.
pub fn get_bookings(markup: &str) -> (bookings: Result<Vec<Booking>, Error>)
    ensures
        match bookings {
            Ok(found) => page_bookings(markup@) == Some(booking_views(found@)),
            Err(e) => e == Error::ParseError && page_bookings(markup@).is_none(),
        },
{
    match booking_links(markup) {
        Ok(links) => bookings_among(&links),
        Err(e) => Err(e),
    }
}

/// The bookings of one day among `bookings`, in their order.
pub open spec fn on_day(bookings: Seq<BookingFacts>, date: Date) -> Seq<BookingFacts>
    decreases bookings.len(),
{
    if bookings.len() == 0 {
        Seq::empty()
    } else if bookings.last().date == date {
        on_day(bookings.drop_last(), date).push(bookings.last())
    } else {
        on_day(bookings.drop_last(), date)
    }
}

/// The bookings of one day among the account's bookings, in their order.
pub fn bookings_of_day(bookings: &Vec<Booking>, date: Date) -> (found: Vec<Booking>)
    ensures
        booking_views(found@) == on_day(booking_views(bookings@), date),
{
    let mut found: Vec<Booking> = Vec::new();
    let mut k: usize = 0;
    while k < bookings.len()
        invariant
            k <= bookings.len(),
            booking_views(found@) == on_day(booking_views(bookings@).take(k as int), date),
        decreases bookings.len() - k,
    {
        let ghost all = booking_views(bookings@);
        assert(all.take(k + 1).drop_last() == all.take(k as int));
        let booking = &bookings[k];
        if booking.date == date {
            found.push(
                Booking {
                    id: booking.id.clone(),
                    date: booking.date,
                    court_time: booking.court_time.clone(),
                    court_number: booking.court_number,
                },
            );
        }
        k += 1;
    }
    assert(booking_views(bookings@).take(k as int) == booking_views(bookings@));
    found
}

} // verus!
