use vstd::prelude::*;

verus! {

/// Anything that names a table of the backing store.
pub trait TableName {
    spec fn table_name_spec(&self) -> Seq<char>;

    fn table_name(&self) -> (r: &str)
        ensures
            r@ == self.table_name_spec(),
    ;
}

/// The record tables of the backing store.
#[derive(Debug, Clone, Copy, PartialEq, Eq, Structural)]
pub enum Table {
    LikedPost,
    Media,
    Post,
    Reply,
    User,
    Meta,
    UserKV,
    Asset,
    Task,
    Status,
    Collection,
    ScrollCursor,
}

impl Table {
    /// The table's name in the store.
    pub open spec fn name(self) -> Seq<char> {
        match self {
            Table::LikedPost => "liked_post"@,
            Table::Media => "media"@,
            Table::Post => "post"@,
            Table::Reply => "reply"@,
            Table::User => "user"@,
            Table::Meta => "metadata"@,
            Table::UserKV => "user_kv"@,
            Table::Asset => "asset"@,
            Table::Task => "task"@,
            Table::Status => "status"@,
            Table::Collection => "collection"@,
            Table::ScrollCursor => "scroll_cursor"@,
        }
    }

    pub fn as_str(&self) -> (r: &'static str)
        ensures
            r@ == self.name(),
    {
        match self {
            Table::LikedPost => "liked_post",
            Table::Media => "media",
            Table::Post => "post",
            Table::Reply => "reply",
            Table::User => "user",
            Table::Meta => "metadata",
            Table::UserKV => "user_kv",
            Table::Asset => "asset",
            Table::Task => "task",
            Table::Status => "status",
            Table::Collection => "collection",
            Table::ScrollCursor => "scroll_cursor",
        }
    }
}

impl TableName for Table {
    open spec fn table_name_spec(&self) -> Seq<char> {
        self.name()
    }

    fn table_name(&self) -> (r: &str) {
        self.as_str()
    }
}

/// The relation tables of the backing store.
#[derive(Debug, Clone, Copy, PartialEq, Eq, Structural)]
pub enum Rel {
    Collect,
}

impl Rel {
    /// The relation's name in the store.
    pub open spec fn name(self) -> Seq<char> {
        match self {
            Rel::Collect => "collect"@,
        }
    }

    pub fn as_str(&self) -> (r: &'static str)
        ensures
            r@ == self.name(),
    {
        match self {
            Rel::Collect => "collect",
        }
    }
}

impl TableName for Rel {
    open spec fn table_name_spec(&self) -> Seq<char> {
        self.name()
    }

    fn table_name(&self) -> (r: &str) {
        self.as_str()
    }
}

} // verus!
