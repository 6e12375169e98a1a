use vstd::prelude::*;
use crate::text::{concat, same_text};
use crate::numbers::{decimal, i64_to_text, parse_i64, parsed_i64};

verus! {

/// The keys of what is stored per user.
#[derive(Debug, Clone, Copy, PartialEq, Eq, Structural)]
pub enum UserKey {
    Twitter,
}

impl UserKey {
    pub open spec fn name(self) -> Seq<char> {
        match self {
            UserKey::Twitter => "twitter"@,
        }
    }

    pub fn as_str(self) -> (r: &'static str)
        ensures
            r@ == self.name(),
    {
        match self {
            UserKey::Twitter => "twitter",
        }
    }

    /// The key named `s`; of any other text an error that quotes it.
    pub fn from_str(s: &str) -> (r: Result<UserKey, String>)
        ensures
            match r {
                Ok(key) => key.name() == s@,
                Err(message) => s@ != UserKey::Twitter.name() && message@ == "Unknown UserKey: "@ + s@,
            },
    {
        if same_text(s, "twitter") {
            Ok(UserKey::Twitter)
        } else {
            Err(concat("Unknown UserKey: ", s))
        }
    }
}

/// A stored value: a text or a number.
#[derive(Debug)]
pub enum UserKVValue {
    String(String),
    Number(i64),
}

impl UserKVValue {
    /// The value as text: the text itself, or the number in decimal.
    pub open spec fn as_text(self) -> Seq<char> {
        match self {
            UserKVValue::String(s) => s@,
            UserKVValue::Number(n) => decimal(n as int),
        }
    }

    /// The value as a number; a text that is not the text of a number
    /// counts as zero.
    pub open spec fn as_number(self) -> i64 {
        match self {
            UserKVValue::String(s) => match parsed_i64(s@) {
                Some(n) => n,
                None => 0,
            },
            UserKVValue::Number(n) => n,
        }
    }

    pub fn into_string(self) -> (r: String)
        ensures
            r@ == self.as_text(),
    {
        match self {
            UserKVValue::String(s) => s,
            UserKVValue::Number(n) => i64_to_text(n),
        }
    }

    pub fn into_number(self) -> (r: i64)
        ensures
            r == self.as_number(),
    {
        match self {
            UserKVValue::String(s) => match parse_i64(s.as_str()) {
                Some(n) => n,
                None => 0,
            },
            UserKVValue::Number(n) => n,
        }
    }

    pub fn from_string(s: String) -> (r: UserKVValue)
        ensures
            r == UserKVValue::String(s),
    {
        UserKVValue::String(s)
    }

    pub fn from_text(s: &str) -> (r: UserKVValue)
        ensures
            r is String,
            r.as_text() == s@,
    {
        UserKVValue::String(String::from_str(s))
    }

    pub fn from_i64(n: i64) -> (r: UserKVValue)
        ensures
            r == UserKVValue::Number(n),
    {
        UserKVValue::Number(n)
    }

    pub fn from_i32(n: i32) -> (r: UserKVValue)
        ensures
            r == UserKVValue::Number(n as i64),
    {
        UserKVValue::Number(n as i64)
    }
}

/// One stored value and its key.
#[derive(Debug)]
pub struct UserKV {
    pub key: UserKey,
    pub value: UserKVValue,
}

} // verus!
