use vstd::prelude::*;
use crate::ingest::{scan, scan_all, EntryClass, STREAK_THRESHOLD};
use crate::record::RecordIdView;

verus! {

/// How many known records end at position `n` of a page in a row; entries
/// without a record neither lengthen nor end such a run.
pub open spec fn known_run(page: Seq<EntryClass>, seen: Seq<RecordIdView>, n: nat) -> nat
    decreases n,
{
    if n == 0 {
        0
    } else {
        match page[n - 1] {
            EntryClass::Post(id) => if seen.contains(id) {
                known_run(page, seen, (n - 1) as nat) + 1
            } else {
                0
            },
            _ => known_run(page, seen, (n - 1) as nat),
        }
    }
}

/// The positions, among the first `n` of a page, of the records that are
/// not known, in page order.
pub open spec fn new_positions(page: Seq<EntryClass>, seen: Seq<RecordIdView>, n: nat) -> Seq<int>
    decreases n,
{
    if n == 0 {
        Seq::empty()
    } else {
        match page[n - 1] {
            EntryClass::Post(id) => if seen.contains(id) {
                new_positions(page, seen, (n - 1) as nat)
            } else {
                new_positions(page, seen, (n - 1) as nat).push(n - 1)
            },
            _ => new_positions(page, seen, (n - 1) as nat),
        }
    }
}

/// Whether a run of known records reaches the threshold somewhere among
/// the first `n` entries of a page.
pub open spec fn streak_within(page: Seq<EntryClass>, seen: Seq<RecordIdView>, n: nat) -> bool {
    exists|e: nat| e <= n && #[trigger] known_run(page, seen, e) >= STREAK_THRESHOLD
}

/// The identifiers of the records at the positions `picked` of a page.
pub open spec fn picked_keys(page: Seq<EntryClass>, picked: Seq<int>) -> Seq<RecordIdView> {
    Seq::new(picked.len(), |k: int| page[picked[k]]->Post_0)
}

/// Every record that a scan takes is a record of the page whose identifier
/// is not among the known ones, and the records are taken in page order.
pub proof fn law_picked_are_new(page: Seq<EntryClass>, seen: Seq<RecordIdView>, n: nat)
    requires
        n <= page.len(),
    ensures
        forall|k: int|
            0 <= k < scan(page, seen, n).picked.len() ==> {
                let i = #[trigger] scan(page, seen, n).picked[k];
                &&& 0 <= i < n
                &&& page[i] is Post
                &&& !seen.contains(page[i]->Post_0)
            },
        forall|k: int, l: int|
            0 <= k < l < scan(page, seen, n).picked.len() ==> scan(page, seen, n).picked[k] < scan(
                page,
                seen,
                n,
            ).picked[l],
    decreases n,
{
    if n > 0 {
        law_picked_are_new(page, seen, (n - 1) as nat);
    }
}

/// Streak tolerance, while no streak has reached the threshold: the scan
/// has taken every record that is not known, and counts the known records
/// that end here in a row.
pub proof fn law_tolerates_isolated_repeats(page: Seq<EntryClass>, seen: Seq<RecordIdView>, n: nat)
    requires
        n <= page.len(),
    ensures
        scan(page, seen, n).stopped <==> streak_within(page, seen, n),
        !scan(page, seen, n).stopped ==> scan(page, seen, n).picked == new_positions(page, seen, n),
        !scan(page, seen, n).stopped ==> scan(page, seen, n).streak == known_run(page, seen, n),
        !scan(page, seen, n).stopped ==> scan(page, seen, n).streak < STREAK_THRESHOLD,
    decreases n,
{
    if n == 0 {
        assert forall|e: nat| e <= n implies !(#[trigger] known_run(page, seen, e) >= STREAK_THRESHOLD) by {}
    } else {
        let m = (n - 1) as nat;
        law_tolerates_isolated_repeats(page, seen, m);
        let before = scan(page, seen, m);
        if before.stopped {
            let e = choose|e: nat| e <= m && #[trigger] known_run(page, seen, e) >= STREAK_THRESHOLD;
            assert(e <= n && known_run(page, seen, e) >= STREAK_THRESHOLD);
        } else {
            if scan(page, seen, n).stopped {
                assert(known_run(page, seen, n) >= STREAK_THRESHOLD);
            } else {
                assert forall|e: nat| e <= n implies !(#[trigger] known_run(page, seen, e)
                    >= STREAK_THRESHOLD) by {
                    if e <= m {
                        assert(!streak_within(page, seen, m));
                    }
                }
            }
        }
    }
}

/// A scan that stopped took exactly the unknown records before the entry
/// that completed the first streak, and none after it.
pub proof fn law_stops_at_first_streak(page: Seq<EntryClass>, seen: Seq<RecordIdView>, n: nat) -> (e: nat)
    requires
        n <= page.len(),
        scan(page, seen, n).stopped,
    ensures
        0 < e <= n,
        known_run(page, seen, e) == STREAK_THRESHOLD,
        !streak_within(page, seen, (e - 1) as nat),
        scan(page, seen, n).picked == new_positions(page, seen, e),
    decreases n,
{
    let m = (n - 1) as nat;
    if scan(page, seen, m).stopped {
        law_stops_at_first_streak(page, seen, m)
    } else {
        law_tolerates_isolated_repeats(page, seen, m);
        n
    }
}

/// Idempotent re-ingestion: when the records taken from one page are
/// persisted and another page is scanned against what is then known, the
/// second scan takes no record that was known before or that the first scan
/// took, whatever the two pages have in common.
pub proof fn law_reingestion_adds_no_duplicates(
    first_page: Seq<EntryClass>,
    second_page: Seq<EntryClass>,
    seen: Seq<RecordIdView>,
)
    ensures
        ({
            let first = scan_all(first_page, seen);
            let known = seen + picked_keys(first_page, first.picked);
            let second = scan_all(second_page, known);
            forall|k: int|
                0 <= k < second.picked.len() ==> {
                    let id = #[trigger] picked_keys(second_page, second.picked)[k];
                    &&& !seen.contains(id)
                    &&& !picked_keys(first_page, first.picked).contains(id)
                }
        }),
{
    let first = scan_all(first_page, seen);
    let taken = picked_keys(first_page, first.picked);
    let known = seen + taken;
    let second = scan_all(second_page, known);
    law_picked_are_new(second_page, known, second_page.len());
    assert forall|k: int| 0 <= k < second.picked.len() implies {
        let id = #[trigger] picked_keys(second_page, second.picked)[k];
        &&& !seen.contains(id)
        &&& !taken.contains(id)
    } by {
        let id = picked_keys(second_page, second.picked)[k];
        let i = second.picked[k];
        assert(!known.contains(id));
        if seen.contains(id) {
            let j = choose|j: int| 0 <= j < seen.len() && seen[j] == id;
            assert(known[j] == id);
        }
        if taken.contains(id) {
            let j = choose|j: int| 0 <= j < taken.len() && taken[j] == id;
            assert(known[seen.len() + j] == id);
        }
    }
}

/// A page that was ingested is skipped when it is met again: scanned
/// against what is known after the first scan, no record of it is taken,
/// provided the first scan read the page to its end.
pub proof fn law_rescan_takes_nothing(page: Seq<EntryClass>, seen: Seq<RecordIdView>, n: nat)
    requires
        n <= page.len(),
        !scan_all(page, seen).stopped,
    ensures
        scan(page, seen + picked_keys(page, scan_all(page, seen).picked), n).picked.len() == 0,
    decreases n,
{
    let first = scan_all(page, seen);
    let taken = picked_keys(page, first.picked);
    let known = seen + taken;
    if n > 0 {
        let m = (n - 1) as nat;
        law_rescan_takes_nothing(page, seen, m);
        match page[n - 1] {
            EntryClass::Post(id) => {
                if seen.contains(id) {
                    let j = choose|j: int| 0 <= j < seen.len() && seen[j] == id;
                    assert(known[j] == id);
                } else {
                    law_tolerates_isolated_repeats(page, seen, page.len());
                    lemma_new_position_listed(page, seen, page.len(), n - 1);
                    let k = choose|k: int|
                        0 <= k < first.picked.len() && first.picked[k] == n - 1;
                    assert(taken[k] == id);
                    assert(known[seen.len() + k] == id);
                }
            },
            _ => {},
        }
    }
}

proof fn lemma_new_position_listed(page: Seq<EntryClass>, seen: Seq<RecordIdView>, n: nat, i: int)
    requires
        0 <= i < n <= page.len(),
        page[i] is Post,
        !seen.contains(page[i]->Post_0),
    ensures
        exists|k: int|
            0 <= k < new_positions(page, seen, n).len() && new_positions(page, seen, n)[k] == i,
    decreases n,
{
    let here = new_positions(page, seen, n);
    if i == n - 1 {
        assert(here[here.len() - 1] == i);
    } else {
        lemma_new_position_listed(page, seen, (n - 1) as nat, i);
        let prev = new_positions(page, seen, (n - 1) as nat);
        let k = choose|k: int| 0 <= k < prev.len() && prev[k] == i;
        assert(here[k] == i);
    }
}

} // verus!
