use vstd::prelude::*;
use crate::record::{contains_id, id_views, RecordId, RecordIdView};
use crate::seqs::reversed;

verus! {

/// Known entries in a row after which a scan has met what it ingested
/// before.
pub const STREAK_THRESHOLD: usize = 5;

/// One page of a scan: the new items in page order, the cursor of the next
/// page, and whether the scan has reached its end. The cursor means
/// something only while `is_end` is false.
#[derive(Debug)]
pub struct CursoredData<T> {
    pub list: Vec<T>,
    pub next: String,
    pub is_end: bool,
}

/// One entry of a page, as far as it could be read.
#[derive(Debug)]
pub enum PageEntry<T> {
    /// The marker that carries the cursor of the next page, if it has one.
    BottomCursor(Option<String>),
    /// The marker at the head of a page.
    TopCursor,
    /// An entry that holds no readable record, such as a tombstone.
    Unreadable,
    /// A record, and the identifier under which it is persisted.
    Item { key: RecordId, item: T },
}

/// What an entry is to the scan.
pub enum EntryClass {
    Cursor(Option<Seq<char>>),
    Skip,
    Post(RecordIdView),
}

impl<T> PageEntry<T> {
    pub open spec fn class(self) -> EntryClass {
        match self {
            PageEntry::BottomCursor(Some(c)) => EntryClass::Cursor(Some(c@)),
            PageEntry::BottomCursor(None) => EntryClass::Cursor(None),
            PageEntry::TopCursor => EntryClass::Skip,
            PageEntry::Unreadable => EntryClass::Skip,
            PageEntry::Item { key, item } => EntryClass::Post(key@),
        }
    }
}

/// The classes of the entries of a page, in page order.
pub open spec fn classes<T>(entries: Seq<PageEntry<T>>) -> Seq<EntryClass> {
    entries.map_values(|e: PageEntry<T>| e.class())
}

/// How far a scan has come.
pub struct Scan {
    /// The positions, in the page, of the records taken so far.
    pub picked: Seq<int>,
    /// The cursor of the next page, empty while none was met.
    pub cursor: Seq<char>,
    /// How many known records were met in a row.
    pub streak: nat,
    /// Whether the streak reached the threshold: the scan reads no further.
    pub stopped: bool,
}

pub open spec fn scan_start() -> Scan {
    Scan { picked: Seq::empty(), cursor: Seq::empty(), streak: 0, stopped: false }
}

/// The scan after the entry at position `i`, of class `class`. A known
/// record is skipped and lengthens the streak; a new record is taken and
/// ends the streak; an entry without a record leaves the streak as it is.
pub open spec fn scan_step(st: Scan, class: EntryClass, i: int, seen: Seq<RecordIdView>) -> Scan {
    if st.stopped {
        st
    } else {
        match class {
            EntryClass::Cursor(Some(c)) => Scan { cursor: c, ..st },
            EntryClass::Cursor(None) => st,
            EntryClass::Skip => st,
            EntryClass::Post(id) => if seen.contains(id) {
                Scan { streak: st.streak + 1, stopped: st.streak + 1 >= STREAK_THRESHOLD, ..st }
            } else {
                Scan { picked: st.picked.push(i), streak: 0, ..st }
            },
        }
    }
}

/// The scan after the first `n` entries of a page.
pub open spec fn scan(page: Seq<EntryClass>, seen: Seq<RecordIdView>, n: nat) -> Scan
    decreases n,
{
    if n == 0 {
        scan_start()
    } else {
        scan_step(scan(page, seen, (n - 1) as nat), page[n - 1], n - 1, seen)
    }
}

/// The scan after a whole page.
pub open spec fn scan_all(page: Seq<EntryClass>, seen: Seq<RecordIdView>) -> Scan {
    scan(page, seen, page.len())
}

/// The records at the positions `picked` of a page.
pub open spec fn picked_items<T>(entries: Seq<PageEntry<T>>, picked: Seq<int>) -> Seq<T> {
    Seq::new(picked.len(), |k: int| entries[picked[k]]->item)
}

/// A scan that has stopped reads no further.
pub proof fn lemma_stopped_stays(page: Seq<EntryClass>, seen: Seq<RecordIdView>, n: nat, m: nat)
    requires
        n <= m,
        scan(page, seen, n).stopped,
    ensures
        scan(page, seen, m) == scan(page, seen, n),
    decreases m,
{
    if n < m {
        lemma_stopped_stays(page, seen, n, (m - 1) as nat);
    }
}

/// Scans one page against the identifiers that are persisted already.
///
/// The records that are not yet known are taken, in page order. The scan
/// stops at the entry that completes `STREAK_THRESHOLD` known records in a
/// row, and the page is the last one if that happened or if it holds no
/// entry at all.
pub fn scan_page<T>(entries: Vec<PageEntry<T>>, seen: &Vec<RecordId>) -> (r: CursoredData<T>)
    ensures
        r.list@ == picked_items(entries@, scan_all(classes(entries@), id_views(seen@)).picked),
        r.next@ == scan_all(classes(entries@), id_views(seen@)).cursor,
        r.is_end == (entries@.len() == 0 || scan_all(classes(entries@), id_views(seen@)).stopped),
{
    let n = entries.len();
    let ghost all = entries@;
    let ghost page = classes(all);
    let ghost known = id_views(seen@);
    let mut rest = reversed(entries);
    let mut list: Vec<T> = Vec::new();
    let mut next = String::new();
    let mut streak: usize = 0;
    let mut stopped = false;
    let mut i: usize = 0;
    assert(list@ =~= picked_items(all, scan(page, known, 0).picked));
    while rest.len() > 0 && !stopped
        invariant
            n == all.len(),
            page == classes(all),
            known == id_views(seen@),
            i + rest@.len() == n,
            forall|j: int| 0 <= j < rest@.len() ==> rest@[j] == all[n - 1 - j],
            list@ == picked_items(all, scan(page, known, i as nat).picked),
            next@ == scan(page, known, i as nat).cursor,
            streak == scan(page, known, i as nat).streak,
            stopped == scan(page, known, i as nat).stopped,
            !stopped ==> streak < STREAK_THRESHOLD,
        decreases rest@.len(),
    {
        let ghost before = scan(page, known, i as nat);
        let entry = rest.pop().unwrap();
        assert(entry == all[i as int]);
        assert(page[i as int] == entry.class());
        match entry {
            PageEntry::BottomCursor(Some(c)) => {
                next = c;
            },
            PageEntry::Item { key, item } => {
                if contains_id(seen, &key) {
                    streak += 1;
                    if streak >= STREAK_THRESHOLD {
                        stopped = true;
                    }
                } else {
                    streak = 0;
                    list.push(item);
                    assert(list@ =~= picked_items(all, before.picked.push(i as int)));
                }
            },
            _ => {},
        }
        i += 1;
    }
    proof {
        if stopped {
            lemma_stopped_stays(page, known, i as nat, n as nat);
        }
    }
    CursoredData { list, next, is_end: n == 0 || stopped }
}

} // verus!
