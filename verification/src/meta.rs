use vstd::prelude::*;
use crate::text::{concat, same_text};
use crate::numbers::{i64_to_text, parse_i64, parsed_i64, decimal};

verus! {

/// The keys of the application's own settings.
#[derive(Debug, Clone, Copy, PartialEq, Eq, Structural)]
pub enum MetaKey {
    FirstCursor,
    SaveDir,
}

impl MetaKey {
    pub open spec fn name(self) -> Seq<char> {
        match self {
            MetaKey::FirstCursor => "first_cursor"@,
            MetaKey::SaveDir => "save_dir"@,
        }
    }

    pub fn as_str(self) -> (r: &'static str)
        ensures
            r@ == self.name(),
    {
        match self {
            MetaKey::FirstCursor => "first_cursor",
            MetaKey::SaveDir => "save_dir",
        }
    }

    /// The key named `s`; of any other text an error that quotes it.
    pub fn from_str(s: &str) -> (r: Result<MetaKey, String>)
        ensures
            match r {
                Ok(key) => key.name() == s@,
                Err(message) => {
                    &&& s@ != MetaKey::FirstCursor.name()
                    &&& s@ != MetaKey::SaveDir.name()
                    &&& message@ == "Unknown MetaKey: "@ + s@
                },
            },
    {
        if same_text(s, "first_cursor") {
            Ok(MetaKey::FirstCursor)
        } else if same_text(s, "save_dir") {
            Ok(MetaKey::SaveDir)
        } else {
            Err(concat("Unknown MetaKey: ", s))
        }
    }
}

/// A setting's value: a text or a number.
#[derive(Debug)]
pub enum MetaValue {
    String(String),
    Number(i64),
}

impl MetaValue {
    /// The value as text: the text itself, or the number in decimal.
    pub open spec fn as_text(self) -> Seq<char> {
        match self {
            MetaValue::String(s) => s@,
            MetaValue::Number(n) => decimal(n as int),
        }
    }

    /// The value as a number, if it is one or is the text of one.
    pub open spec fn as_number(self) -> Option<i64> {
        match self {
            MetaValue::String(s) => parsed_i64(s@),
            MetaValue::Number(n) => Some(n),
        }
    }

    pub fn into_string(self) -> (r: String)
        ensures
            r@ == self.as_text(),
    {
        match self {
            MetaValue::String(s) => s,
            MetaValue::Number(n) => i64_to_text(n),
        }
    }

    /// The value as a number. A text has to be the text of a number.
    pub fn into_number(self) -> (r: i64)
        requires
            self.as_number() is Some,
        ensures
            Some(r) == self.as_number(),
    {
        match self {
            MetaValue::String(s) => parse_i64(s.as_str()).unwrap(),
            MetaValue::Number(n) => n,
        }
    }

    /// The value as a number, or `None` of a text that is not the text of
    /// one.
    pub fn try_into_number(self) -> (r: Option<i64>)
        ensures
            r == self.as_number(),
    {
        match self {
            MetaValue::String(s) => match parse_i64(s.as_str()) {
                Some(_) => Some(MetaValue::String(s).into_number()),
                None => None,
            },
            MetaValue::Number(n) => Some(n),
        }
    }

    pub fn from_string(s: String) -> (r: MetaValue)
        ensures
            r == MetaValue::String(s),
    {
        MetaValue::String(s)
    }

    pub fn from_text(s: &str) -> (r: MetaValue)
        ensures
            r.as_text() == s@,
            r is String,
    {
        MetaValue::String(String::from_str(s))
    }

    pub fn from_i64(n: i64) -> (r: MetaValue)
        ensures
            r == MetaValue::Number(n),
    {
        MetaValue::Number(n)
    }

    pub fn from_i32(n: i32) -> (r: MetaValue)
        ensures
            r == MetaValue::Number(n as i64),
    {
        MetaValue::Number(n as i64)
    }
}

/// One setting.
#[derive(Debug)]
pub struct Meta {
    pub id: MetaKey,
    pub v: MetaValue,
}

/// Settings that the whole process shares.
#[derive(Debug)]
pub struct GlobalVal {
    /// The directory under which assets are saved, once it is configured.
    pub save_dir: Option<String>,
}

impl GlobalVal {
    /// The globals as they are before the settings were read.
    pub fn new() -> (r: GlobalVal)
        ensures
            r.save_dir is None,
    {
        GlobalVal { save_dir: None }
    }

    /// The globals that follow from the stored value of the save directory.
    pub fn init(stored: Option<MetaValue>) -> (r: GlobalVal)
        ensures
            match stored {
                Some(v) => r.save_dir is Some && r.save_dir->0@ == v.as_text(),
                None => r.save_dir is None,
            },
    {
        match stored {
            Some(v) => GlobalVal { save_dir: Some(v.into_string()) },
            None => GlobalVal { save_dir: None },
        }
    }

    /// Takes over the stored value of the save directory.
    pub fn update(&mut self, stored: Option<MetaValue>)
        ensures
            match stored {
                Some(v) => final(self).save_dir is Some && final(self).save_dir->0@ == v.as_text(),
                None => final(self).save_dir is None,
            },
    {
        match stored {
            Some(v) => {
                self.save_dir = Some(v.into_string());
            },
            None => {
                self.save_dir = None;
            },
        }
    }

    pub fn get_save_dir(&self) -> (r: Option<String>)
        ensures
            match r {
                Some(dir) => self.save_dir is Some && dir@ == self.save_dir->0@,
                None => self.save_dir is None,
            },
    {
        match &self.save_dir {
            Some(dir) => Some(dir.clone()),
            None => None,
        }
    }
}

} // verus!
