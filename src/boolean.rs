//! Booleans that the server encodes as the integers 0 and 1.
use vstd::prelude::*;

verus! {

/// What a boolean field must hold, in the words an error reports.
pub const EXPECTED_BOOL: &'static str = "zero or one";

/// A boolean field held an integer other than 0 or 1.
#[derive(Debug, Clone, Copy, PartialEq, Eq, Structural)]
pub struct InvalidBool {
    /// The integer that was found.
    pub value: u64,
}

impl InvalidBool {
    /// Describes the values that were expected instead: "zero or one".
    pub fn expected(&self) -> (r: &'static str)
        ensures
            r@ == EXPECTED_BOOL@,
    {
        EXPECTED_BOOL
    }
}

/// The boolean that `value` encodes, or the error that reports it.
pub open spec fn decoded_bool(value: u8) -> Result<bool, InvalidBool> {
    if value == 0 {
        Ok(false)
    } else if value == 1 {
        Ok(true)
    } else {
        Err(InvalidBool { value: value as u64 })
    }
}

/// `decoded_bool` for a field that may be absent: absent stays absent.
pub open spec fn decoded_option_bool(value: Option<u8>) -> Result<Option<bool>, InvalidBool> {
    match value {
        None => Ok(None),
        Some(v) => match decoded_bool(v) {
            Ok(b) => Ok(Some(b)),
            Err(e) => Err(e),
        },
    }
}

/// Decodes an integer-encoded boolean: 0 is false, 1 is true, anything else
/// is an error carrying the integer.
pub fn bool_from_int(value: u8) -> (r: Result<bool, InvalidBool>)
    ensures
        r == decoded_bool(value),
{
    match value {
        0 => Ok(false),
        1 => Ok(true),
        other => Err(InvalidBool { value: other as u64 }),
    }
}

/// Decodes an integer-encoded boolean field that may be absent.
pub fn option_bool_from_int(value: Option<u8>) -> (r: Result<Option<bool>, InvalidBool>)
    ensures
        r == decoded_option_bool(value),
{
    match value {
        None => Ok(None),
        Some(v) => match bool_from_int(v) {
            Ok(b) => Ok(Some(b)),
            Err(e) => Err(e),
        },
    }
}

/// The optional variant agrees with the plain one: an absent field decodes to
/// absent, a present one to the plain result wrapped as present, and a
/// present field that the plain variant refuses fails with the same error.
pub proof fn lemma_optional_matches_plain(value: Option<u8>)
    ensures
        value is None ==> decoded_option_bool(value) == Ok::<Option<bool>, InvalidBool>(None),
        forall|v: u8|
            value == Some(v) ==> {
                &&& decoded_bool(v) matches Ok(b) ==> decoded_option_bool(value) == Ok::<
                    Option<bool>,
                    InvalidBool,
                >(Some(b))
                &&& decoded_bool(v) matches Err(e) ==> decoded_option_bool(value) == Err::<
                    Option<bool>,
                    InvalidBool,
                >(e)
            },
{
}

} // verus!
