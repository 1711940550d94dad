//! Pages of the site, read with the `select` crate.
//!
//! A page is parsed once; its nodes are then known by their index in the
//! document. What the parser makes of a page is not stated here: each answer
//! is named after the page's text and the question asked of it.

use vstd::prelude::*;
use select::document::Document;
use select::predicate::{Attr, Class};
use vstd::string::StrSliceExecFns;

verus! {

/// `select::document::Document`: a parsed page, carried as it is.
#[verifier::external_type_specification]
#[verifier::external_body]
pub struct ExDocument(select::document::Document);

/// The most characters of a page that is parsed.
///
/// The parser holds a page, and each text it gathers from the page, in a
/// buffer that grows by powers of two and whose capacity is counted in 32
/// bits: no buffer can take more than two to the power of 31 bytes. A
/// character of the page takes at most four bytes, in the page and in what
/// the parser makes of it.
pub const MAX_PAGE_CHARS: usize = 0x1fff_ffff;

/// Whether a page is short enough to be parsed.
pub open spec fn page_fits(markup: Seq<char>) -> bool {
    markup.len() <= MAX_PAGE_CHARS
}

/// Whether a page is short enough to be parsed.
pub fn fits(markup: &str) -> (short: bool)
    ensures
        short == page_fits(markup@),
{
    markup.unicode_len() <= MAX_PAGE_CHARS
}

/// The text that a document was parsed from.
pub uninterp spec fn document_source(document: Document) -> Seq<char>;

/// The nodes of a page that carry a class, in document order.
pub uninterp spec fn class_nodes(markup: Seq<char>, class: Seq<char>) -> Seq<usize>;

/// The nodes of a page that have an attribute with a value, in document order.
pub uninterp spec fn attr_nodes(markup: Seq<char>, name: Seq<char>, value: Seq<char>) -> Seq<
    usize,
>;

/// The value of an attribute of a node of a page.
pub uninterp spec fn node_attr(markup: Seq<char>, node: usize, name: Seq<char>) -> Option<
    Seq<char>,
>;

/// The first child of a node of a page.
pub uninterp spec fn node_first_child(markup: Seq<char>, node: usize) -> Option<usize>;

/// The text of a node of a page and of all that is below it.
pub uninterp spec fn node_text(markup: Seq<char>, node: usize) -> Option<Seq<char>>;

/// Parses a page with `Document::from`.
///
/// The document is remembered by the text it was made from. A page too
/// long for the parser's buffers is left out: the parser would not return.
/// Nothing is claimed of how deep a page nests: the call descends once for
/// each level, and a page nested deeper than the stack holds ends the
/// process as one larger than the memory does.
#[verifier::external_body]
pub(crate) fn parse(markup: &str) -> (document: Document)
    requires
        page_fits(markup@),
    ensures
        document_source(document) == markup@,
{
    Document::from(markup)
}

/// The indices of the nodes that `Document::find` gives for the predicate
/// `Class`, in the order in which it gives them.
#[verifier::external_body]
pub(crate) fn find_class(document: &Document, class: &str) -> (nodes: Vec<usize>)
    ensures
        nodes@ == class_nodes(document_source(*document), class@),
{
    document.find(Class(class)).map(|node| node.index()).collect()
}

/// The indices of the nodes that `Document::find` gives for the predicate
/// `Attr` with a name and a value, in the order in which it gives them.
#[verifier::external_body]
pub(crate) fn find_attr(document: &Document, name: &str, value: &str) -> (nodes: Vec<usize>)
    ensures
        nodes@ == attr_nodes(document_source(*document), name@, value@),
{
    document.find(Attr(name, value)).map(|node| node.index()).collect()
}

/// What `Node::attr` returns for the node that `Document::nth` gives at an
/// index; `None` also where there is no such node.
#[verifier::external_body]
pub(crate) fn attr_of(document: &Document, node: usize, name: &str) -> (value: Option<String>)
    ensures
        match value {
            Some(text) => node_attr(document_source(*document), node, name@) == Some(text@),
            None => node_attr(document_source(*document), node, name@).is_none(),
        },
{
    document.nth(node).and_then(|n| n.attr(name)).map(|value| value.to_string())
}

/// The index of what `Node::first_child` returns for the node that
/// `Document::nth` gives at an index; `None` also where there is no such node.
#[verifier::external_body]
pub(crate) fn first_child_of(document: &Document, node: usize) -> (child: Option<usize>)
    ensures
        child == node_first_child(document_source(*document), node),
{
    document.nth(node).and_then(|n| n.first_child()).map(|child| child.index())
}

/// What `Node::text` returns for the node that `Document::nth` gives at an
/// index; `None` where there is no such node. The call descends once for
/// each level below the node, as the parse did.
#[verifier::external_body]
pub(crate) fn text_of_node(document: &Document, node: usize) -> (text: Option<String>)
    ensures
        match text {
            Some(t) => node_text(document_source(*document), node) == Some(t@),
            None => node_text(document_source(*document), node).is_none(),
        },
{
    document.nth(node).map(|n| n.text())
}

} // verus!
