//! Searching and cutting text, stated over sequences of characters.

use vstd::prelude::*;

verus! {

/// An optional string as a value of specifications.
pub open spec fn text_view(text: Option<String>) -> Option<Seq<char>> {
    match text {
        Some(t) => Some(t@),
        None => None,
    }
}

/// `needle` stands in `hay` at position `at`.
pub open spec fn occurs_at(hay: Seq<char>, needle: Seq<char>, at: int) -> bool {
    &&& 0 <= at
    &&& at + needle.len() <= hay.len()
    &&& hay.subrange(at, at + needle.len()) == needle
}

/// `needle` stands somewhere in `hay`.
pub open spec fn contains_text(hay: Seq<char>, needle: Seq<char>) -> bool {
    exists|at: int| occurs_at(hay, needle, at)
}

/// `at` is the first position of `needle` in `hay`.
pub open spec fn first_at(hay: Seq<char>, needle: Seq<char>, at: int) -> bool {
    &&& occurs_at(hay, needle, at)
    &&& forall|earlier: int| 0 <= earlier < at ==> !occurs_at(hay, needle, earlier)
}

/// First position of `needle` in `hay`, if it occurs at all.
pub open spec fn first_occurrence(hay: Seq<char>, needle: Seq<char>) -> Option<int> {
    if contains_text(hay, needle) {
        Some(choose|at: int| first_at(hay, needle, at))
    } else {
        None
    }
}

/// First position of the character `mark` in `text`, or the length of `text`.
pub open spec fn position_of(text: Seq<char>, mark: char) -> int
    decreases text.len(),
{
    if text.len() == 0 || text[0] == mark {
        0
    } else {
        1 + position_of(text.skip(1), mark)
    }
}

/// Position of the last `mark` in `text` plus one, or zero without one.
pub open spec fn after_last(text: Seq<char>, mark: char) -> int
    decreases text.len(),
{
    if text.len() == 0 {
        0
    } else if text.last() == mark {
        text.len() as int
    } else {
        after_last(text.drop_last(), mark)
    }
}

/// Two first positions of one needle are the same position.
pub proof fn first_at_unique(hay: Seq<char>, needle: Seq<char>, a: int, b: int)
    requires
        first_at(hay, needle, a),
        first_at(hay, needle, b),
    ensures
        a == b,
{
}

/// A first position is what `first_occurrence` names.
pub proof fn first_occurrence_is(hay: Seq<char>, needle: Seq<char>, at: int)
    requires
        first_at(hay, needle, at),
    ensures
        first_occurrence(hay, needle) == Some(at),
{
    let chosen = choose|c: int| first_at(hay, needle, c);
    first_at_unique(hay, needle, at, chosen);
}

/// The characters of a string, in order.
pub fn chars_of(text: &str) -> (chars: Vec<char>)
    ensures
        chars@ == text@,
{
    let mut chars: Vec<char> = Vec::new();
    for c in it: text.chars()
        invariant
            chars@ == it.seq().take(it.index()),
            it.seq() == text@,
    {
        chars.push(c);
    }
    chars
}

/// Whether `needle` stands in `hay` at `at`.
pub fn matches_at(hay: &Vec<char>, needle: &Vec<char>, at: usize) -> (hit: bool)
    ensures
        hit == occurs_at(hay@, needle@, at as int),
{
    if needle.len() > hay.len() || at > hay.len() - needle.len() {
        return false;
    }
    let mut k: usize = 0;
    while k < needle.len()
        invariant
            k <= needle.len(),
            at + needle.len() <= hay.len(),
            forall|j: int| 0 <= j < k ==> hay@[at + j] == needle@[j],
        decreases needle.len() - k,
    {
        if hay[at + k] != needle[k] {
            return false;
        }
        k += 1;
    }
    assert(hay@.subrange(at as int, at + needle.len()) =~= needle@);
    true
}

/// First position of `needle` in `hay`.
pub fn find_text(hay: &Vec<char>, needle: &Vec<char>) -> (found: Option<usize>)
    ensures
        match found {
            Some(at) => first_occurrence(hay@, needle@) == Some(at as int) && first_at(
                hay@,
                needle@,
                at as int,
            ),
            None => first_occurrence(hay@, needle@).is_none() && !contains_text(hay@, needle@),
        },
{
    let mut at: usize = 0;
    while at < hay.len()
        invariant
            at <= hay.len(),
            forall|earlier: int| 0 <= earlier < at ==> !occurs_at(hay@, needle@, earlier),
        decreases hay.len() - at,
    {
        if matches_at(hay, needle, at) {
            proof {
                first_occurrence_is(hay@, needle@, at as int);
            }
            return Some(at);
        }
        at += 1;
    }
    if matches_at(hay, needle, at) {
        proof {
            first_occurrence_is(hay@, needle@, at as int);
        }
        return Some(at);
    }
    None
}

/// First position of the character `mark` at or after `from`, or the length.
pub fn find_char(text: &Vec<char>, mark: char, from: usize) -> (at: usize)
    requires
        from <= text.len(),
    ensures
        at == from + position_of(text@.skip(from as int), mark),
        from <= at <= text.len(),
{
    let mut at: usize = from;
    while at < text.len() && text[at] != mark
        invariant
            from <= at <= text.len(),
            from + position_of(text@.skip(from as int), mark) == at + position_of(
                text@.skip(at as int),
                mark,
            ),
        decreases text.len() - at,
    {
        assert(text@.skip(at as int).skip(1) == text@.skip(at + 1));
        at += 1;
    }
    at
}

/// The part of `text` from `from` up to `to`.
pub fn slice_of(text: &Vec<char>, from: usize, to: usize) -> (part: Vec<char>)
    requires
        from <= to <= text.len(),
    ensures
        part@ == text@.subrange(from as int, to as int),
{
    let mut part: Vec<char> = Vec::new();
    let mut k: usize = from;
    while k < to
        invariant
            from <= k <= to <= text.len(),
            part@ == text@.subrange(from as int, k as int),
        decreases to - k,
    {
        part.push(text[k]);
        k += 1;
    }
    part
}

/// A string of the given characters.
///
/// Collects the characters with `String::from_iter`, which std documents as
/// building the string from the items of the iterator, in order.
#[verifier::external_body]
pub(crate) fn text_of(chars: &Vec<char>) -> (text: String)
    ensures
        text@ == chars@,
{
    chars.iter().collect()
}

/// Position of the last `mark` in `text` plus one, or zero without one.
pub fn end_of_last(text: &Vec<char>, mark: char) -> (at: usize)
    ensures
        at == after_last(text@, mark),
        at <= text.len(),
{
    let mut at: usize = text.len();
    assert(text@.take(at as int) == text@);
    while at > 0 && text[at - 1] != mark
        invariant
            at <= text.len(),
            after_last(text@, mark) == after_last(text@.take(at as int), mark),
        decreases at,
    {
        assert(text@.take(at as int).drop_last() == text@.take(at - 1));
        at -= 1;
    }
    at
}

/// The value of a text that is one decimal digit.
pub open spec fn digit_value(text: Seq<char>) -> Option<u8> {
    if text.len() == 1 && '0' <= text[0] <= '9' {
        Some((text[0] as u8 - '0' as u8) as u8)
    } else {
        None
    }
}

/// The value of a text that is one decimal digit, and nothing of any other.
pub fn read_digit(text: &str) -> (value: Option<u8>)
    ensures
        value == digit_value(text@),
{
    let chars = chars_of(text);
    if chars.len() != 1 {
        return None;
    }
    let c: char = chars[0];
    if '0' <= c && c <= '9' {
        Some(c as u8 - '0' as u8)
    } else {
        None
    }
}

} // verus!
