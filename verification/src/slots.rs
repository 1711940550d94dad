//! The free cells of a day's listing, and the one to book.

use vstd::prelude::*;
use crate::clock::TimeOfDay;
use crate::error::Error;
use crate::markup::{
    attr_of, class_nodes, document_source, find_class, first_child_of, fits, node_attr,
    node_first_child, node_text, page_fits, parse, text_of_node,
};
use select::document::Document;
use vstd::string::StringExecFns;
use crate::text::{
    chars_of, find_char, find_text, first_at, first_occurrence, first_occurrence_is, occurs_at,
    position_of, slice_of, text_of, text_view,
};

verus! {

/// Class of a cell of the calendar that can still be booked.
pub const FREE_CELL_CLASS: &'static str = "creneauLibre";

/// What precedes an offer's identifier in a cell's `onclick` attribute.
pub const ID_MARK: &'static str = "idTspl=";

/// The identifier that an `onclick` attribute carries.
///
/// It follows the first `idTspl=`, without the quote that may open it, and
/// ends before the next quote or with the attribute.
pub open spec fn offer_id(onclick: Seq<char>) -> Option<Seq<char>> {
    match first_occurrence(onclick, ID_MARK@) {
        None => None,
        Some(at) => {
            let rest = onclick.skip(at + ID_MARK@.len());
            let body = if rest.len() > 0 && rest[0] == '"' {
                rest.skip(1)
            } else {
                rest
            };
            Some(body.take(position_of(body, '"')))
        },
    }
}

/// The identifier that an `onclick` attribute carries, if it carries one.
pub fn extract_offer_id(onclick: &str) -> (id: Option<String>)
    ensures
        match id {
            Some(text) => offer_id(onclick@) == Some(text@),
            None => offer_id(onclick@).is_none(),
        },
{
    let chars = chars_of(onclick);
    let mark = chars_of(ID_MARK);
    match find_text(&chars, &mark) {
        None => None,
        Some(at) => {
            assert(occurs_at(chars@, mark@, at as int));
            let start: usize = at + mark.len();
            let opened: usize = if start < chars.len() && chars[start] == '"' {
                start + 1
            } else {
                start
            };
            let end: usize = find_char(&chars, '"', opened);
            let id = slice_of(&chars, opened, end);
            proof {
                let rest = onclick@.skip(start as int);
                let body = if rest.len() > 0 && rest[0] == '"' {
                    rest.skip(1)
                } else {
                    rest
                };
                assert(body == onclick@.skip(opened as int));
                assert(body.take(position_of(body, '"')) == onclick@.subrange(
                    opened as int,
                    end as int,
                ));
            }
            Some(text_of(&id))
        },
    }
}

/// What the locator reads of one cell of a listing.
pub struct Cell {
    /// The time that the cell shows: the text of the first node below its
    /// first node.
    pub label: Option<String>,
    /// The cell's `class` attribute.
    pub class: Option<String>,
    /// The cell's `onclick` attribute.
    pub onclick: Option<String>,
}

/// A cell as a value of specifications.
pub ghost struct CellFacts {
    pub label: Option<Seq<char>>,
    pub class: Option<Seq<char>>,
    pub onclick: Option<Seq<char>>,
}

impl View for Cell {
    type V = CellFacts;

    open spec fn view(&self) -> CellFacts {
        CellFacts {
            label: text_view(self.label),
            class: text_view(self.class),
            onclick: text_view(self.onclick),
        }
    }
}

/// A cell that can be booked at the wanted time.
pub struct Offer {
    /// The site's identifier of the cell, as later requests name it.
    pub raw_id: String,
    /// The time that the cell shows.
    pub displayed_time: TimeOfDay,
}

/// What becomes of one cell when a time is looked for.
pub enum CellFate {
    /// The cell shows another time, or is no longer free.
    Skipped,
    /// The cell is a candidate with this identifier.
    Offered(Seq<char>),
    /// The cell lacks its label, or matches and lacks its identifier.
    Broken,
}

/// What becomes of `cell` when the time written `label` is looked for.
pub open spec fn cell_fate(cell: CellFacts, label: Seq<char>) -> CellFate {
    match cell.label {
        None => CellFate::Broken,
        Some(shown) => if shown != label {
            CellFate::Skipped
        } else {
            match cell.class {
                None => CellFate::Broken,
                Some(class) => if class != FREE_CELL_CLASS@ {
                    CellFate::Skipped
                } else {
                    match cell.onclick {
                        None => CellFate::Broken,
                        Some(onclick) => match offer_id(onclick) {
                            None => CellFate::Broken,
                            Some(id) => CellFate::Offered(id),
                        },
                    }
                },
            }
        },
    }
}

/// The identifiers of the candidates among `cells` for the time written
/// `label`, in the order of the cells; a failure if a cell is broken.
pub open spec fn candidates(cells: Seq<CellFacts>, label: Seq<char>) -> Result<
    Seq<Seq<char>>,
    Error,
>
    decreases cells.len(),
{
    if cells.len() == 0 {
        Ok(Seq::empty())
    } else {
        match candidates(cells.drop_last(), label) {
            Err(e) => Err(e),
            Ok(ids) => match cell_fate(cells.last(), label) {
                CellFate::Skipped => Ok(ids),
                CellFate::Offered(id) => Ok(ids.push(id)),
                CellFate::Broken => Err(Error::ParseError),
            },
        }
    }
}

/// The cells of a listing as values of specifications.
pub open spec fn cell_views(cells: Seq<Cell>) -> Seq<CellFacts> {
    cells.map_values(|cell: Cell| cell@)
}

/// The identifiers of offers.
pub open spec fn offer_ids(offers: Seq<Offer>) -> Seq<Seq<char>> {
    offers.map_values(|offer: Offer| offer.raw_id@)
}

fn fate_of(cell: &Cell, label: &String) -> (fate: Result<Option<String>, Error>)
    ensures
        match fate {
            Ok(None) => cell_fate(cell@, label@) == CellFate::Skipped,
            Ok(Some(id)) => cell_fate(cell@, label@) == CellFate::Offered(id@),
            Err(e) => e == Error::ParseError && cell_fate(cell@, label@) == CellFate::Broken,
        },
{
    let shown = match &cell.label {
        None => { return Err(Error::ParseError); },
        Some(shown) => shown,
    };
    if *shown != *label {
        return Ok(None);
    }
    let class = match &cell.class {
        None => { return Err(Error::ParseError); },
        Some(class) => class,
    };
    if *class != String::from_str(FREE_CELL_CLASS) {
        return Ok(None);
    }
    let onclick = match &cell.onclick {
        None => { return Err(Error::ParseError); },
        Some(onclick) => onclick,
    };
    match extract_offer_id(onclick.as_str()) {
        None => Err(Error::ParseError),
        Some(id) => Ok(Some(id)),
    }
}

/// The offers among the cells of a listing that show `time` and are still
/// free, in the order of the cells.
///
/// A cell without a label, and a matching cell without an identifier, make
/// the listing unreadable.
pub fn candidates_among(cells: &Vec<Cell>, time: TimeOfDay) -> (found: Result<Vec<Offer>, Error>)
    ensures
        match found {
            Ok(offers) => candidates(cell_views(cells@), time.label()) == Ok::<
                Seq<Seq<char>>,
                Error,
            >(offer_ids(offers@))
                && forall|k: int| 0 <= k < offers.len() ==> offers[k].displayed_time == time,
            Err(e) => e == Error::ParseError && candidates(cell_views(cells@), time.label())
                == Err::<Seq<Seq<char>>, Error>(Error::ParseError),
        },
{
    let label = time.to_label();
    let mut offers: Vec<Offer> = Vec::new();
    let mut k: usize = 0;
    assert(offer_ids(offers@) == Seq::<Seq<char>>::empty());
    while k < cells.len()
        invariant
            k <= cells.len(),
            label@ == time.label(),
            candidates(cell_views(cells@).take(k as int), label@) == Ok::<Seq<Seq<char>>, Error>(
                offer_ids(offers@),
            ),
            forall|j: int| 0 <= j < offers.len() ==> offers[j].displayed_time == time,
        decreases cells.len() - k,
    {
        let ghost ids = offer_ids(offers@);
        assert(cell_views(cells@).take(k + 1).drop_last() == cell_views(cells@).take(k as int));
        match fate_of(&cells[k], &label) {
            Err(e) => {
                proof {
                    broken_prefix(cell_views(cells@), label@, k + 1);
                }
                return Err(e);
            },
            Ok(None) => {},
            Ok(Some(id)) => {
                offers.push(Offer { raw_id: id, displayed_time: time });
                assert(offer_ids(offers@) == ids.push(id@));
            },
        }
        k += 1;
    }
    assert(cell_views(cells@).take(k as int) == cell_views(cells@));
    Ok(offers)
}

/// Once a prefix of the cells is unreadable, so is the whole listing.
pub proof fn broken_prefix(cells: Seq<CellFacts>, label: Seq<char>, n: int)
    requires
        0 <= n <= cells.len(),
        candidates(cells.take(n), label).is_err(),
    ensures
        candidates(cells, label) == Err::<Seq<Seq<char>>, Error>(Error::ParseError),
    decreases cells.len() - n,
{
    candidates_fail_one_way(cells.take(n), label);
    if n == cells.len() {
        assert(cells.take(n) == cells);
    } else {
        assert(cells.take(n + 1).drop_last() == cells.take(n));
        broken_prefix(cells, label, n + 1);
    }
}

/// A listing fails to be read in one way only.
pub proof fn candidates_fail_one_way(cells: Seq<CellFacts>, label: Seq<char>)
    ensures
        candidates(cells, label) matches Err(e) ==> e == Error::ParseError,
    decreases cells.len(),
{
    if cells.len() > 0 {
        candidates_fail_one_way(cells.drop_last(), label);
    }
}

/// The label of a cell of a page: the text of the first node below its
/// first node.
pub open spec fn page_label(markup: Seq<char>, node: usize) -> Option<Seq<char>> {
    match node_first_child(markup, node) {
        None => None,
        Some(child) => match node_first_child(markup, child) {
            None => None,
            Some(inner) => node_text(markup, inner),
        },
    }
}

/// What the locator reads of a node of a page.
pub open spec fn page_cell(markup: Seq<char>, node: usize) -> CellFacts {
    CellFacts {
        label: page_label(markup, node),
        class: node_attr(markup, node, "class"@),
        onclick: node_attr(markup, node, "onclick"@),
    }
}

/// The cells of a page that carry the class of free cells, in document
/// order.
pub open spec fn page_cells(markup: Seq<char>) -> Seq<CellFacts> {
    class_nodes(markup, FREE_CELL_CLASS@).map_values(|node: usize| page_cell(markup, node))
}

fn read_cell(document: &Document, node: usize) -> (cell: Cell)
    ensures
        cell@ == page_cell(document_source(*document), node),
{
    let label = match first_child_of(document, node) {
        None => None,
        Some(child) => match first_child_of(document, child) {
            None => None,
            Some(inner) => text_of_node(document, inner),
        },
    };
    let class = attr_of(document, node, "class");
    let onclick = attr_of(document, node, "onclick");
    Cell { label, class, onclick }
}

/// The cells of a day's listing that carry the class of free cells, in
/// document order.
///
/// A listing too long to be parsed is unreadable.
pub fn free_cells(markup: &str) -> (cells: Result<Vec<Cell>, Error>)
    ensures
        match cells {
            Ok(found) => page_fits(markup@) && cell_views(found@) == page_cells(markup@),
            Err(e) => e == Error::ParseError && !page_fits(markup@),
        },
{
    if !fits(markup) {
        return Err(Error::ParseError);
    }
    let document = parse(markup);
    let nodes = find_class(&document, FREE_CELL_CLASS);
    let mut cells: Vec<Cell> = Vec::new();
    let mut k: usize = 0;
    while k < nodes.len()
        invariant
            k <= nodes.len(),
            document_source(document) == markup@,
            nodes@ == class_nodes(markup@, FREE_CELL_CLASS@),
            cell_views(cells@) == page_cells(markup@).take(k as int),
        decreases nodes.len() - k,
    {
        let cell = read_cell(&document, nodes[k]);
        let ghost before = cell_views(cells@);
        cells.push(cell);
        k += 1;
        assert(cell_views(cells@) == before.push(cell@));
        assert(cell_views(cells@) == page_cells(markup@).take(k as int));
    }
    assert(page_cells(markup@).take(k as int) == page_cells(markup@));
    Ok(cells)
}

/// The identifiers of the candidates of a page for the time written
/// `label`, in document order; a failure if the page is too long to be
/// parsed or one of its cells is broken.
pub open spec fn page_candidates(markup: Seq<char>, label: Seq<char>) -> Result<
    Seq<Seq<char>>,
    Error,
> {
    if page_fits(markup) {
        candidates(page_cells(markup), label)
    } else {
        Err(Error::ParseError)
    }
}

/// The offers of a day's listing for `time`, in document order.
///
/// A cell is a candidate when its label is `time` written `HH:MM`, its class
/// is that of free cells and nothing else, and its `onclick` attribute
/// carries an identifier. A cell of the free class without a label, and a
/// matching one without an identifier, make the listing unreadable; so
/// does a length that the parser cannot take.
pub fn find_book_ids(markup: &str, time: TimeOfDay) -> (found: Result<Vec<Offer>, Error>)
    ensures
        match found {
            Ok(offers) => page_candidates(markup@, time.label()) == Ok::<Seq<Seq<char>>, Error>(
                offer_ids(offers@),
            ) && forall|k: int| 0 <= k < offers.len() ==> offers[k].displayed_time == time,
            Err(e) => e == Error::ParseError && page_candidates(markup@, time.label()) == Err::<
                Seq<Seq<char>>,
                Error,
            >(Error::ParseError),
        },
{
    match free_cells(markup) {
        Ok(cells) => candidates_among(&cells, time),
        Err(e) => Err(e),
    }
}

/// Which of `count` candidates is booked: the second of exactly four, else
/// the first, and none of none.
pub open spec fn selected_index(count: nat) -> Option<nat> {
    if count == 0 {
        None
    } else if count == 4 {
        Some(1)
    } else {
        Some(0)
    }
}

/// The position of the candidate to book among `count` candidates.
///
/// Four candidates of one time are the site's four parallel cells, of which
/// the second is taken; of any other number the first is.
pub fn select_candidate(count: usize) -> (index: Option<usize>)
    ensures
        index.is_some() == (count > 0),
        match index {
            Some(i) => selected_index(count as nat) == Some(i as nat) && i < count,
            None => selected_index(count as nat).is_none(),
        },
{
    if count == 0 {
        None
    } else if count == 4 {
        Some(1)
    } else {
        Some(0)
    }
}

/// An identifier written between quotes after the mark is read back as it
/// was written, whatever precedes the mark and whatever follows the closing
/// quote.
pub proof fn quoted_id_is_read_back(before: Seq<char>, id: Seq<char>, after: Seq<char>)
    requires
        !id.contains('"'),
        first_at(
            before + ID_MARK@ + seq!['"'] + id + seq!['"'] + after,
            ID_MARK@,
            before.len() as int,
        ),
    ensures
        offer_id(before + ID_MARK@ + seq!['"'] + id + seq!['"'] + after) == Some(id),
{
    let whole = before + ID_MARK@ + seq!['"'] + id + seq!['"'] + after;
    let at = before.len() as int;
    first_occurrence_is(whole, ID_MARK@, at);
    let rest = whole.skip(at + ID_MARK@.len());
    let body = rest.skip(1);
    position_after_clean_prefix(id, seq!['"'] + after, '"');
    assert(id + (seq!['"'] + after) == body);
}

/// Where a text without `mark` is followed by one that starts with it, the
/// first `mark` stands right after the text.
pub proof fn position_after_clean_prefix(clean: Seq<char>, tail: Seq<char>, mark: char)
    requires
        !clean.contains(mark),
        tail.len() > 0,
        tail[0] == mark,
    ensures
        position_of(clean + tail, mark) == clean.len(),
    decreases clean.len(),
{
    if clean.len() > 0 {
        assert((clean + tail).skip(1) == clean.skip(1) + tail);
        assert(!clean.skip(1).contains(mark)) by {
            if clean.skip(1).contains(mark) {
                let i = choose|i: int| 0 <= i < clean.skip(1).len() && clean.skip(1)[i] == mark;
                assert(clean[i + 1] == mark);
            }
        }
        assert(clean[0] != mark);
        position_after_clean_prefix(clean.skip(1), tail, mark);
    } else {
        assert(clean + tail == tail);
    }
}

} // verus!
