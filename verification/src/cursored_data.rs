use vstd::prelude::*;
use crate::api_models::EntriesType;
use crate::ingest::{classes, picked_items, scan_all, scan_page, CursoredData, EntryClass, PageEntry};
use crate::json::{items_in, items_of, text_in, text_of, Json};
use crate::like::{LikedPost, LikedPostView};
use crate::meta::GlobalVal;
use crate::post::{post_record, PostType};
use crate::post_api::liked_from_api;
use crate::record::{id_views, RecordId, RecordIdView};
use crate::seqs::reversed;
use crate::text::{contains, occurs_in};

verus! {

/// Why a page could not be ingested.
#[derive(Debug, Clone, Copy, PartialEq, Eq, Structural)]
pub enum IngestError {
    /// The response holds no first timeline instruction.
    NoInstruction,
    /// The first timeline instruction is not one that adds entries.
    NotAddEntries,
    /// The first timeline instruction holds no list of entries.
    NoEntries,
    /// The page holds more new posts than sort indices are left below the
    /// last one that was given.
    SortIndexExhausted,
}

impl IngestError {
    pub open spec fn text(self) -> Seq<char> {
        match self {
            IngestError::NoInstruction => "can not find timeline.instructions[0]"@,
            IngestError::NotAddEntries => "timeline.instructions[0].type is not TimelineAddEntries"@,
            IngestError::NoEntries => "cannot find timeline.instructions[0].entries"@,
            IngestError::SortIndexExhausted => "no sort index is left for the new posts"@,
        }
    }

    pub fn message(&self) -> (r: &'static str)
        ensures
            r@ == self.text(),
    {
        match self {
            IngestError::NoInstruction => "can not find timeline.instructions[0]",
            IngestError::NotAddEntries => "timeline.instructions[0].type is not TimelineAddEntries",
            IngestError::NoEntries => "cannot find timeline.instructions[0].entries",
            IngestError::SortIndexExhausted => "no sort index is left for the new posts",
        }
    }
}

/// The first of a list of instructions: the first element of an array, or
/// the member `0` of an object.
pub open spec fn first_of(list: Json) -> Option<Json> {
    match list {
        Json::Array(items) => list.element(0),
        _ => list.field("0"@),
    }
}

/// The first timeline instruction of a response, looked for at the two
/// places where the platform puts it.
pub open spec fn first_instruction(response: Json) -> Option<Json> {
    let timeline = response.at4("data"@, "user"@, "result"@, "timeline"@);
    let nested = match timeline {
        Some(t) => match t.at2("timeline"@, "instructions"@) {
            Some(list) => first_of(list),
            None => None,
        },
        None => None,
    };
    match nested {
        Some(i) => Some(i),
        None => match timeline {
            Some(t) => match t.field("instructions"@) {
                Some(list) => first_of(list),
                None => None,
            },
            None => None,
        },
    }
}

/// The entries of the page that a response holds.
pub open spec fn page_entries(response: Json) -> Result<Seq<Json>, IngestError> {
    match first_instruction(response) {
        Some(instruction) => if text_of(instruction.field("type"@)) != Some(
            EntriesType::TimelineAddEntries.name(),
        ) {
            Err(IngestError::NotAddEntries)
        } else {
            match items_of(instruction.field("entries"@)) {
                Some(entries) => Ok(entries),
                None => Err(IngestError::NoEntries),
            }
        },
        None => Err(IngestError::NoInstruction),
    }
}

/// What an entry of a page is to the scan: a cursor marker by its
/// identifier, else the post it holds, else nothing.
pub open spec fn entry_class(entry: Json, save_dir: Option<Seq<char>>) -> EntryClass {
    let id = text_of(entry.field("entryId"@));
    if id is Some && occurs_in(id->0, "cursor-bottom"@) {
        EntryClass::Cursor(text_of(entry.at2("content"@, "value"@)))
    } else if id is Some && occurs_in(id->0, "cursor-top"@) {
        EntryClass::Skip
    } else {
        match liked_from_api(entry, save_dir) {
            Some(liked) => EntryClass::Post(post_record(liked.post.rest_id, PostType::Root)),
            None => EntryClass::Skip,
        }
    }
}

/// The classes of the entries of a page.
pub open spec fn page_classes(entries: Seq<Json>, save_dir: Option<Seq<char>>) -> Seq<EntryClass> {
    Seq::new(entries.len(), |i: int| entry_class(entries[i], save_dir))
}

/// The posts at the positions `picked` of a page, numbered downwards from
/// just below `ceiling`.
pub open spec fn numbered(
    entries: Seq<Json>,
    picked: Seq<int>,
    ceiling: int,
    save_dir: Option<Seq<char>>,
) -> Seq<LikedPostView> {
    Seq::new(
        picked.len(),
        |k: int|
            LikedPostView {
                sortidx: (ceiling - 1 - k) as u32,
                post: liked_from_api(entries[picked[k]], save_dir)->0.post,
            },
    )
}

/// What ingesting a response gives, as mathematical values: the new posts
/// with their sort indices, the cursor of the next page, and the end flag.
pub open spec fn ingested(
    response: Json,
    ceiling: int,
    seen: Seq<RecordIdView>,
    save_dir: Option<Seq<char>>,
) -> Result<(Seq<LikedPostView>, Seq<char>, bool), IngestError> {
    match page_entries(response) {
        Ok(entries) => {
            let scan = scan_all(page_classes(entries, save_dir), seen);
            if scan.picked.len() > ceiling {
                Err(IngestError::SortIndexExhausted)
            } else {
                Ok(
                    (
                        numbered(entries, scan.picked, ceiling, save_dir),
                        scan.cursor,
                        entries.len() == 0 || scan.stopped,
                    ),
                )
            }
        },
        Err(e) => Err(e),
    }
}

/// The milliseconds since the epoch, now.
///
/// Calls `chrono::Utc::now` and `DateTime::timestamp_millis`. The result
/// depends on the clock: nothing is claimed of it.
#[verifier::external_body]
fn now_millis() -> i64 {
    chrono::Utc::now().timestamp_millis()
}

fn first_in(list: &Json) -> (r: Option<&Json>)
    ensures
        match r {
            Some(j) => first_of(*list) == Some(*j),
            None => first_of(*list) is None,
        },
{
    match list {
        Json::Array(_) => list.at(0),
        _ => list.get("0"),
    }
}

fn find_instruction(response: &Json) -> (r: Option<&Json>)
    ensures
        match r {
            Some(j) => first_instruction(*response) == Some(*j),
            None => first_instruction(*response) is None,
        },
{
    let timeline = response.get4("data", "user", "result", "timeline")?;
    let nested = match timeline.get2("timeline", "instructions") {
        Some(list) => first_in(list),
        None => None,
    };
    match nested {
        Some(i) => Some(i),
        None => match timeline.get("instructions") {
            Some(list) => first_in(list),
            None => None,
        },
    }
}

fn find_entries(response: &Json) -> (r: Result<&Vec<Json>, IngestError>)
    ensures
        match r {
            Ok(entries) => page_entries(*response) == Ok::<Seq<Json>, IngestError>(entries@),
            Err(e) => page_entries(*response) == Err::<Seq<Json>, IngestError>(e),
        },
{
    let instruction = match find_instruction(response) {
        Some(i) => i,
        None => {
            return Err(IngestError::NoInstruction);
        },
    };
    let known = match text_in(instruction.get("type")) {
        Some(name) => EntriesType::from_name(name).is_some(),
        None => false,
    };
    if !known {
        return Err(IngestError::NotAddEntries);
    }
    match items_in(instruction.get("entries")) {
        Some(entries) => Ok(entries),
        None => Err(IngestError::NoEntries),
    }
}

fn read_entry(entry: &Json, globals: &GlobalVal) -> (r: PageEntry<LikedPost>)
    ensures
        r.class() == entry_class(*entry, globals.save_dir.deep_view()),
        r is Item ==> Some(r->item.deep_view()) == liked_from_api(*entry, globals.save_dir.deep_view()),
{
    match text_in(entry.get("entryId")) {
        Some(id) => {
            if contains(id, "cursor-bottom") {
                return PageEntry::BottomCursor(
                    match text_in(entry.get2("content", "value")) {
                        Some(c) => Some(String::from_str(c)),
                        None => None,
                    },
                );
            } else if contains(id, "cursor-top") {
                return PageEntry::TopCursor;
            }
        },
        None => {},
    }
    match LikedPost::from_api(entry, globals) {
        Some(liked) => PageEntry::Item { key: liked.post_key(), item: liked },
        None => PageEntry::Unreadable,
    }
}

impl CursoredData<LikedPost> {
    /// Ingests one page of liked posts: reads the entries of the response,
    /// takes the posts that are not among `exist`, and numbers them
    /// downwards from just below `ceiling`, so that every post gets a sort
    /// index that is smaller than every index given before.
    pub fn from_response_at(
        response: &Json,
        ceiling: u64,
        exist: &Vec<RecordId>,
        globals: &GlobalVal,
    ) -> (r: Result<CursoredData<LikedPost>, IngestError>)
        requires
            ceiling <= 0x1_0000_0000,
        ensures
            match r {
                Ok(data) => ingested(
                    *response,
                    ceiling as int,
                    id_views(exist@),
                    globals.save_dir.deep_view(),
                ) == Ok::<(Seq<LikedPostView>, Seq<char>, bool), IngestError>(
                    (data.list.deep_view(), data.next@, data.is_end),
                ),
                Err(e) => ingested(
                    *response,
                    ceiling as int,
                    id_views(exist@),
                    globals.save_dir.deep_view(),
                ) == Err::<(Seq<LikedPostView>, Seq<char>, bool), IngestError>(e),
            },
    {
        let ghost dir = globals.save_dir.deep_view();
        let entries = match find_entries(response) {
            Ok(entries) => entries,
            Err(e) => {
                return Err(e);
            },
        };
        let mut page: Vec<PageEntry<LikedPost>> = Vec::new();
        let mut i: usize = 0;
        while i < entries.len()
            invariant
                i <= entries.len(),
                dir == globals.save_dir.deep_view(),
                page@.len() == i,
                forall|j: int|
                    0 <= j < i ==> {
                        &&& (#[trigger] page@[j]).class() == entry_class(entries@[j], dir)
                        &&& page@[j] is Item ==> Some(page@[j]->item.deep_view()) == liked_from_api(
                            entries@[j],
                            dir,
                        )
                    },
            decreases entries.len() - i,
        {
            page.push(read_entry(&entries[i], globals));
            i += 1;
        }
        let ghost read = page@;
        assert(classes(read) =~= page_classes(entries@, dir));
        let ghost scan = scan_all(page_classes(entries@, dir), id_views(exist@));
        proof {
            crate::ingest_laws::law_picked_are_new(
                page_classes(entries@, dir),
                id_views(exist@),
                entries@.len(),
            );
        }
        let found = scan_page(page, exist);
        if found.list.len() as u64 > ceiling {
            return Err(IngestError::SortIndexExhausted);
        }
        let ghost taken = found.list@;
        let count = found.list.len();
        let mut rest = reversed(found.list);
        let mut list: Vec<LikedPost> = Vec::new();
        while rest.len() > 0
            invariant
                count == taken.len(),
                count <= ceiling <= 0x1_0000_0000,
                rest@.len() + list@.len() == count,
                forall|j: int| 0 <= j < rest@.len() ==> rest@[j] == taken[count - 1 - j],
                forall|k: int|
                    0 <= k < list@.len() ==> (#[trigger] list@[k]).deep_view() == (LikedPostView {
                        sortidx: (ceiling - 1 - k) as u32,
                        post: taken[k].post.deep_view(),
                    }),
            decreases rest@.len(),
        {
            let k = list.len();
            let liked = rest.pop().unwrap();
            assert(liked == taken[k as int]);
            let index = (ceiling - 1 - k as u64) as u32;
            list.push(LikedPost { sortidx: index, post: liked.post });
        }
        assert(list.deep_view() =~= numbered(entries@, scan.picked, ceiling as int, dir)) by {
            assert forall|k: int| 0 <= k < list@.len() implies list.deep_view()[k] == numbered(
                entries@,
                scan.picked,
                ceiling as int,
                dir,
            )[k] by {
                let at = scan.picked[k];
                assert(taken[k] == read[at]->item);
                assert(page_classes(entries@, dir)[at] is Post);
                assert(read[at].class() is Post);
                assert(read[at] is Item);
            }
        }
        Ok(CursoredData { list, next: found.next, is_end: found.is_end })
    }

    /// Ingests one page of liked posts. The posts that are not among
    /// `exist` are numbered downwards: from just below `sort_ref`, the last
    /// sort index that an earlier page of the scan was given, or, for the
    /// first page of a scan, from the time of the clock.
    pub fn from_response(
        response: &Json,
        sort_ref: Option<u32>,
        exist: &Vec<RecordId>,
        globals: &GlobalVal,
    ) -> (r: Result<CursoredData<LikedPost>, IngestError>)
        ensures
            exists|ceiling: int|
                {
                    &&& 0 <= ceiling <= 0x1_0000_0000
                    &&& sort_ref is Some ==> ceiling == sort_ref->0
                    &&& sort_ref is None ==> ceiling >= 1
                    &&& match r {
                        Ok(data) => #[trigger] ingested(
                            *response,
                            ceiling,
                            id_views(exist@),
                            globals.save_dir.deep_view(),
                        ) == Ok::<(Seq<LikedPostView>, Seq<char>, bool), IngestError>(
                            (data.list.deep_view(), data.next@, data.is_end),
                        ),
                        Err(e) => ingested(
                            *response,
                            ceiling,
                            id_views(exist@),
                            globals.save_dir.deep_view(),
                        ) == Err::<(Seq<LikedPostView>, Seq<char>, bool), IngestError>(e),
                    }
                },
    {
        let ceiling: u64 = match sort_ref {
            Some(last) => last as u64,
            None => seed_of(now_millis()),
        };
        let r = Self::from_response_at(response, ceiling, exist, globals);
        assert(match r {
            Ok(data) => ingested(
                *response,
                ceiling as int,
                id_views(exist@),
                globals.save_dir.deep_view(),
            ) == Ok::<(Seq<LikedPostView>, Seq<char>, bool), IngestError>(
                (data.list.deep_view(), data.next@, data.is_end),
            ),
            Err(e) => ingested(*response, ceiling as int, id_views(exist@), globals.save_dir.deep_view())
                == Err::<(Seq<LikedPostView>, Seq<char>, bool), IngestError>(e),
        });
        r
    }
}

/// The ceiling of the sort indices of a scan that begins at the time
/// `millis`: one above the time, cut to 32 bits, so that the first index is
/// the time itself.
pub fn seed_of(millis: i64) -> (ceiling: u64)
    ensures
        ceiling == (millis as u32) as u64 + 1,
        ceiling <= 0x1_0000_0000,
{
    (#[verifier::truncate] (millis as u32)) as u64 + 1
}

/// Monotonic local ordering within a page: the posts of a page get sort
/// indices that fall by one from post to post, all of them below the
/// ceiling.
pub proof fn law_sort_indices_descend(
    entries: Seq<Json>,
    picked: Seq<int>,
    ceiling: int,
    save_dir: Option<Seq<char>>,
)
    requires
        picked.len() <= ceiling <= 0x1_0000_0000,
    ensures
        forall|k: int|
            0 <= k < picked.len() ==> (#[trigger] numbered(entries, picked, ceiling, save_dir)[k]).sortidx
                == ceiling - 1 - k,
        forall|k: int, l: int|
            0 <= k < l < picked.len() ==> numbered(entries, picked, ceiling, save_dir)[k].sortidx
                > numbered(entries, picked, ceiling, save_dir)[l].sortidx,
{
}

/// Monotonic local ordering across the pages of a scan: when the ceiling of
/// a page is the last sort index of the page before it, every post of the
/// later page has a smaller sort index than every post of the earlier one,
/// so that no two posts of a scan share an index.
pub proof fn law_pages_keep_order(
    first_entries: Seq<Json>,
    first_picked: Seq<int>,
    first_ceiling: int,
    second_entries: Seq<Json>,
    second_picked: Seq<int>,
    save_dir: Option<Seq<char>>,
)
    requires
        0 < first_picked.len() <= first_ceiling <= 0x1_0000_0000,
        second_picked.len() <= numbered(
            first_entries,
            first_picked,
            first_ceiling,
            save_dir,
        ).last().sortidx,
    ensures
        ({
            let first = numbered(first_entries, first_picked, first_ceiling, save_dir);
            let second = numbered(second_entries, second_picked, first.last().sortidx as int, save_dir);
            forall|i: int, j: int|
                0 <= i < first.len() && 0 <= j < second.len() ==> (#[trigger] second[j]).sortidx < (
                #[trigger] first[i]).sortidx
        }),
{
    let first = numbered(first_entries, first_picked, first_ceiling, save_dir);
    law_sort_indices_descend(first_entries, first_picked, first_ceiling, save_dir);
    law_sort_indices_descend(second_entries, second_picked, first.last().sortidx as int, save_dir);
}

} // verus!
