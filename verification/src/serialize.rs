use vstd::prelude::*;
use crate::json::{Json, JsonNumber};
use crate::text::{concat};
use crate::numbers::{decimal, i64_to_text, parse_i64, parsed_i64, u64_to_text};
use vstd::string::StringExecFns;

verus! {

/// Why a value is no number of 64 bits with sign.
#[derive(Debug)]
pub enum NumberError {
    /// The text is not the text of such a number.
    Unparsable(String),
    /// The number is too large.
    OutOfRange(u64),
    /// The value is neither a text nor an integer.
    WrongKind,
}

impl NumberError {
    pub open spec fn text(self) -> Seq<char> {
        match self {
            NumberError::Unparsable(value) => "cannot parse `"@ + value@ + "` as i64"@,
            NumberError::OutOfRange(n) => "number "@ + decimal(n as int) + " is out of range for i64"@,
            NumberError::WrongKind => "expected a string or integer that can be parsed to i64"@,
        }
    }

    pub fn message(&self) -> (r: String)
        ensures
            r@ == self.text(),
    {
        match self {
            NumberError::Unparsable(value) => {
                let mut r = concat("cannot parse `", value.as_str());
                r.append("` as i64");
                r
            },
            NumberError::OutOfRange(n) => {
                let mut r = concat("number ", u64_to_text(*n).as_str());
                r.append(" is out of range for i64");
                r
            },
            NumberError::WrongKind => String::from_str(
                "expected a string or integer that can be parsed to i64",
            ),
        }
    }
}

/// The number that a value stands for: a text is read as a number, an
/// integer is taken as it is if it fits.
pub open spec fn number_of(value: Json) -> Option<i64> {
    match value {
        Json::Str(s) => parsed_i64(s@),
        Json::Number(JsonNumber::Unsigned(n)) => if n <= i64::MAX as u64 {
            Some(n as i64)
        } else {
            None
        },
        Json::Number(JsonNumber::Negative(n)) => Some(n),
        _ => None,
    }
}

/// Reads a number of 64 bits that is written as a text or as a number.
pub fn i64_from_string_or_number(value: &Json) -> (r: Result<i64, NumberError>)
    ensures
        match r {
            Ok(n) => number_of(*value) == Some(n),
            Err(e) => {
                &&& number_of(*value) is None
                &&& match *value {
                    Json::Str(s) => e is Unparsable && e->Unparsable_0@ == s@,
                    Json::Number(JsonNumber::Unsigned(n)) => e == NumberError::OutOfRange(n),
                    _ => e is WrongKind,
                }
            },
        },
{
    match value {
        Json::Str(s) => match parse_i64(s.as_str()) {
            Some(n) => Ok(n),
            None => Err(NumberError::Unparsable(s.clone())),
        },
        Json::Number(JsonNumber::Unsigned(n)) => {
            if *n <= 0x7fff_ffff_ffff_ffffu64 {
                Ok(*n as i64)
            } else {
                Err(NumberError::OutOfRange(*n))
            }
        },
        Json::Number(JsonNumber::Negative(n)) => Ok(*n),
        _ => Err(NumberError::WrongKind),
    }
}

/// Writes a number of 64 bits as a text.
pub fn i64_to_string(n: i64) -> (r: Json)
    ensures
        r.text() == Some(decimal(n as int)),
{
    Json::Str(i64_to_text(n))
}

} // verus!
