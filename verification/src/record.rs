use vstd::prelude::*;
use crate::table::Table;

verus! {

/// What a record key is, as a mathematical value.
pub enum RecordKeyView {
    Number(int),
    Text(Seq<char>),
}

/// What a record identifier is, as a mathematical value.
pub struct RecordIdView {
    pub table: Table,
    pub key: RecordKeyView,
}

/// The key of a record inside its table.
#[derive(Debug)]
pub enum RecordKey {
    Number(i64),
    Text(String),
}

impl View for RecordKey {
    type V = RecordKeyView;

    open spec fn view(&self) -> RecordKeyView {
        match self {
            RecordKey::Number(n) => RecordKeyView::Number(*n as int),
            RecordKey::Text(s) => RecordKeyView::Text(s@),
        }
    }
}

impl RecordKey {
    /// Whether two keys denote the same value.
    pub fn same(&self, other: &RecordKey) -> (b: bool)
        ensures
            b == (self@ == other@),
    {
        match self {
            RecordKey::Number(a) => match other {
                RecordKey::Number(b) => *a == *b,
                RecordKey::Text(_) => false,
            },
            RecordKey::Text(a) => match other {
                RecordKey::Number(_) => false,
                RecordKey::Text(b) => *a == *b,
            },
        }
    }
}

impl Clone for RecordKey {
    fn clone(&self) -> (r: Self)
        ensures
            r@ == self@,
    {
        match self {
            RecordKey::Number(n) => RecordKey::Number(*n),
            RecordKey::Text(s) => RecordKey::Text(s.clone()),
        }
    }
}

/// The identifier of a record: its table and its key in that table.
#[derive(Debug)]
pub struct RecordId {
    pub table: Table,
    pub key: RecordKey,
}

impl View for RecordId {
    type V = RecordIdView;

    open spec fn view(&self) -> RecordIdView {
        RecordIdView { table: self.table, key: self.key@ }
    }
}

impl Clone for RecordId {
    fn clone(&self) -> (r: Self)
        ensures
            r@ == self@,
    {
        RecordId { table: self.table, key: self.key.clone() }
    }
}

impl RecordId {
    /// The record of `table` keyed by the number `key`.
    pub fn numbered(table: Table, key: i64) -> (r: RecordId)
        ensures
            r@ == (RecordIdView { table, key: RecordKeyView::Number(key as int) }),
    {
        RecordId { table, key: RecordKey::Number(key) }
    }

    /// The record of `table` keyed by the text `key`.
    pub fn named(table: Table, key: &str) -> (r: RecordId)
        ensures
            r@ == (RecordIdView { table, key: RecordKeyView::Text(key@) }),
    {
        RecordId { table, key: RecordKey::Text(String::from_str(key)) }
    }

    /// Whether two identifiers name the same record.
    pub fn same(&self, other: &RecordId) -> (b: bool)
        ensures
            b == (self@ == other@),
    {
        self.table == other.table && self.key.same(&other.key)
    }
}

/// The identifiers of `ids`, as mathematical values, in order.
pub open spec fn id_views(ids: Seq<RecordId>) -> Seq<RecordIdView> {
    ids.map_values(|r: RecordId| r@)
}

/// Whether `ids` holds an identifier of the record `id`.
pub fn contains_id(ids: &Vec<RecordId>, id: &RecordId) -> (b: bool)
    ensures
        b == id_views(ids@).contains(id@),
{
    let mut i: usize = 0;
    while i < ids.len()
        invariant
            i <= ids.len(),
            forall|j: int| 0 <= j < i ==> (#[trigger] ids@[j])@ != id@,
        decreases ids.len() - i,
    {
        if ids[i].same(id) {
            assert(id_views(ids@)[i as int] == id@);
            return true;
        }
        i += 1;
    }
    false
}

} // verus!
