//! Random identifiers for a client that was given none.
use vstd::prelude::*;

use uuid::Uuid;

verus! {

/// A lower-case hexadecimal digit.
pub open spec fn is_lower_hex_digit(c: char) -> bool {
    ('0' <= c && c <= '9') || ('a' <= c && c <= 'f')
}

/// Whether position `i` of a hyphenated identifier holds a hyphen.
pub open spec fn is_hyphen_position(i: int) -> bool {
    i == 8 || i == 13 || i == 18 || i == 23
}

/// The text of a random (version 4, RFC 4122 variant) unique identifier in
/// its hyphenated lower-case form: 8-4-4-4-12 hexadecimal digits, the
/// version digit `4`, and a variant digit from `8` to `b`.
pub open spec fn is_random_identifier(s: Seq<char>) -> bool {
    &&& s.len() == 36
    &&& forall|i: int|
        0 <= i < 36 ==> if is_hyphen_position(i) {
            #[trigger] s[i] == '-'
        } else {
            is_lower_hex_digit(s[i])
        }
    &&& s[14] == '4'
    &&& (s[19] == '8' || s[19] == '9' || s[19] == 'a' || s[19] == 'b')
}

/// Relies on uuid's `Uuid::new_v4`, which draws 122 random bits and sets the
/// version and variant bits, and on its `Display`, which writes the
/// hyphenated lower-case form. Nothing is promised of the digits drawn.
/// It panics only when the operating system cannot supply random bytes, which
/// no argument can rule out.
#[verifier::external_body]
pub(crate) fn random_identifier() -> (r: String)
    ensures
        is_random_identifier(r@),
{
    Uuid::new_v4().to_string()
}

} // verus!
