//! The HTTP header map that requests carry, seen through the names and values
//! it holds.
use vstd::prelude::*;
use vstd::string::StrSliceExecFns;

use reqwest::header::{HeaderMap, HeaderValue};

verus! {

#[verifier::external_type_specification]
#[verifier::external_body]
#[verifier::reject_recursive_types(T)]
pub struct ExHeaderMap<T>(HeaderMap<T>);

#[verifier::external_type_specification]
#[verifier::external_body]
pub struct ExHeaderValue(HeaderValue);

/// What a header map holds: each header name, in lower case, with the text
/// of the value it was last given.
pub uninterp spec fn header_entries(headers: HeaderMap) -> Map<Seq<char>, Seq<char>>;

/// The contents of a map that holds no header.
pub open spec fn no_headers() -> Map<Seq<char>, Seq<char>> {
    Map::empty()
}

/// A character that may stand in a header name.
pub open spec fn is_name_char(c: char) -> bool {
    ('a' <= c && c <= 'z') || ('A' <= c && c <= 'Z') || ('0' <= c && c <= '9') || c == '-'
}

/// A header name that the map takes as it is written: 1 to 64 letters,
/// digits and hyphens.
pub open spec fn is_header_name(name: Seq<char>) -> bool {
    &&& 1 <= name.len() <= 64
    &&& forall|i: int| 0 <= i < name.len() ==> is_name_char(#[trigger] name[i])
}

/// `c` with an upper-case ASCII letter turned to lower case.
pub open spec fn lower_char(c: char) -> char {
    if 'A' <= c && c <= 'Z' {
        ((c as u32) + 32) as char
    } else {
        c
    }
}

/// The key under which a header name is held: the name in lower case.
pub open spec fn header_key(name: Seq<char>) -> Seq<char> {
    name.map_values(|c: char| lower_char(c))
}

/// A character that may stand in a header value: a tab, or anything from the
/// space up but the delete character.
pub open spec fn is_value_char(c: char) -> bool {
    c == '\t' || (' ' <= c && c != '\x7f')
}

/// Text that a header value can hold.
pub open spec fn is_header_value(text: Seq<char>) -> bool {
    forall|i: int| 0 <= i < text.len() ==> is_value_char(#[trigger] text[i])
}

/// Tells whether `text` can be the value of a header.
pub fn is_header_value_text(text: &str) -> (r: bool)
    ensures
        r == is_header_value(text@),
{
    let n = text.unicode_len();
    let mut i: usize = 0;
    while i < n
        invariant
            n == text@.len(),
            i <= n,
            forall|j: int| 0 <= j < i ==> is_value_char(#[trigger] text@[j]),
        decreases n - i,
    {
        let c = text.get_char(i);
        if !(c == '\t' || (' ' <= c && c != '\x7f')) {
            return false;
        }
        i = i + 1;
    }
    true
}

/// Relies on http's `HeaderMap::new`: a new map holds no header.
#[verifier::external_body]
pub(crate) fn new_header_map() -> (r: HeaderMap)
    ensures
        header_entries(r) == no_headers(),
{
    HeaderMap::new()
}

/// Relies on http's `HeaderMap::insert`, keyed by a static name, with the
/// value made by `HeaderValue::from_str`. The name is held in lower case,
/// and its new value replaces any it had. `from_str` refuses a value that holds
/// a control byte other than the tab, and a static name that is not a valid
/// header name panics. `insert` panics only when the map cannot grow past
/// its limit of 32768 slots, which a map of fewer than 4096 names never
/// reaches.
#[verifier::external_body]
pub(crate) fn insert_header(headers: &mut HeaderMap, name: &'static str, value: &str)
    requires
        is_header_name(name@),
        is_header_value(value@),
        header_entries(*old(headers)).dom().len() < 4096,
    ensures
        header_entries(*final(headers)) == header_entries(*old(headers)).insert(
            header_key(name@),
            value@,
        ),
{
    headers.insert(name, HeaderValue::from_str(value).unwrap());
}

} // verus!
