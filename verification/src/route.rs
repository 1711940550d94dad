//! Addresses of the booking site.

use vstd::prelude::*;
use vstd::string::StringExecFns;

verus! {

/// Root of every address on the booking site.
pub const WANAPLAY_END_POINT: &'static str = "http://fr.wanaplay.com/";

/// Address of `route` as a sequence of characters.
pub open spec fn route_text(route: Seq<char>) -> Seq<char> {
    WANAPLAY_END_POINT@ + route
}

/// Full address of a route of the booking site.
pub fn wanaplay_route(route: &str) -> (url: String)
    ensures
        url@ == route_text(route@),
{
    String::from_str(WANAPLAY_END_POINT).concat(route)
}

} // verus!
