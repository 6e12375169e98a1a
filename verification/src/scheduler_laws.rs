use vstd::prelude::*;
use crate::record::RecordIdView;
use crate::scheduler::{bumped, ids_of, Decision, Schedulable, SchedulerView, RETRY_CEILING};

verus! {

/// One thing that happens to a scheduler.
pub enum SchedulerEvent<T> {
    /// A producer queues an item.
    Enqueue(T),
    /// The dispatch loop looks for work, with the pause flag as given.
    Poll(bool),
    /// An execution of the item ends, failed or not.
    Complete(T, bool),
    /// A failed item comes back from its backoff.
    Requeue(T),
}

/// The state after `event`.
pub open spec fn next<T: Schedulable>(s: SchedulerView<T>, event: SchedulerEvent<T>) -> SchedulerView<T> {
    match event {
        SchedulerEvent::Enqueue(item) => s.enqueue(item),
        SchedulerEvent::Poll(paused) => s.poll(paused),
        SchedulerEvent::Complete(item, failed) => s.complete(item, failed),
        SchedulerEvent::Requeue(item) => s.requeue(item),
    }
}

/// What the producers and the runtime owe the scheduler: an item that is
/// queued is not held already, and an item that comes back from its backoff
/// still has its slot.
pub open spec fn admissible<T: Schedulable>(s: SchedulerView<T>, event: SchedulerEvent<T>) -> bool {
    match event {
        SchedulerEvent::Enqueue(item) => !s.holds(item.spec_id()),
        SchedulerEvent::Poll(_) => true,
        SchedulerEvent::Complete(_, _) => true,
        SchedulerEvent::Requeue(item) => s.in_flight.contains(item.spec_id()),
    }
}

/// The state after all of `events`, in order.
pub open spec fn run<T: Schedulable>(s: SchedulerView<T>, events: Seq<SchedulerEvent<T>>) -> SchedulerView<T>
    decreases events.len(),
{
    if events.len() == 0 {
        s
    } else {
        next(run(s, events.drop_last()), events.last())
    }
}

/// Every event of `events` is admissible in the state it meets.
pub open spec fn all_admissible<T: Schedulable>(s: SchedulerView<T>, events: Seq<SchedulerEvent<T>>) -> bool
    decreases events.len(),
{
    events.len() == 0 || (all_admissible(s, events.drop_last()) && admissible(
        run(s, events.drop_last()),
        events.last(),
    ))
}

proof fn lemma_remove_value_sub(s: Seq<RecordIdView>, x: RecordIdView)
    ensures
        forall|y: RecordIdView| s.remove_value(x).contains(y) ==> s.contains(y),
        s.no_duplicates() ==> s.remove_value(x).no_duplicates(),
        s.no_duplicates() ==> !s.remove_value(x).contains(x),
{
    s.index_of_first_ensures(x);
    match s.index_of_first(x) {
        Some(i) => {
            let r = s.remove(i);
            assert forall|y: RecordIdView| r.contains(y) implies s.contains(y) by {
                let k = choose|k: int| 0 <= k < r.len() && r[k] == y;
                if k < i {
                    assert(s[k] == y);
                } else {
                    assert(s[k + 1] == y);
                }
            }
            if s.no_duplicates() {
                assert forall|a: int, b: int| 0 <= a < r.len() && 0 <= b < r.len() && a != b implies r[a]
                    != r[b] by {
                    let a2 = if a < i { a } else { a + 1 };
                    let b2 = if b < i { b } else { b + 1 };
                    assert(r[a] == s[a2] && r[b] == s[b2]);
                }
                if r.contains(x) {
                    let k = choose|k: int| 0 <= k < r.len() && r[k] == x;
                    let k2 = if k < i { k } else { k + 1 };
                    assert(s[k2] == x && s[i] == x && k2 != i);
                }
            }
        },
        None => {},
    }
}

proof fn lemma_concat_distinct(a: Seq<RecordIdView>, b: Seq<RecordIdView>)
    ensures
        (a + b).no_duplicates() <==> (a.no_duplicates() && b.no_duplicates() && forall|x: RecordIdView|
            !(a.contains(x) && b.contains(x))),
{
    let c = a + b;
    if c.no_duplicates() {
        assert forall|i: int, j: int| 0 <= i < a.len() && 0 <= j < a.len() && i != j implies a[i] != a[j] by {
            assert(c[i] == a[i] && c[j] == a[j]);
        }
        assert forall|i: int, j: int| 0 <= i < b.len() && 0 <= j < b.len() && i != j implies b[i] != b[j] by {
            assert(c[a.len() + i] == b[i] && c[a.len() + j] == b[j]);
        }
        assert forall|x: RecordIdView| !(a.contains(x) && b.contains(x)) by {
            if a.contains(x) && b.contains(x) {
                let i = choose|i: int| 0 <= i < a.len() && a[i] == x;
                let j = choose|j: int| 0 <= j < b.len() && b[j] == x;
                assert(c[i] == x && c[a.len() + j] == x);
            }
        }
    }
    if a.no_duplicates() && b.no_duplicates() && forall|x: RecordIdView| !(a.contains(x) && b.contains(x)) {
        assert forall|i: int, j: int| 0 <= i < c.len() && 0 <= j < c.len() && i != j implies c[i] != c[j] by {
            if i < a.len() && j >= a.len() {
                assert(a.contains(c[i]) && b[j - a.len()] == c[j]);
                assert(b.contains(c[j]));
            } else if j < a.len() && i >= a.len() {
                assert(a.contains(c[j]) && b[i - a.len()] == c[i]);
                assert(b.contains(c[i]));
            }
        }
    }
}

proof fn lemma_push_distinct(a: Seq<RecordIdView>, x: RecordIdView)
    ensures
        a.push(x).no_duplicates() <==> (a.no_duplicates() && !a.contains(x)),
        forall|y: RecordIdView| a.push(x).contains(y) <==> (a.contains(y) || y == x),
{
    let c = a.push(x);
    assert forall|y: RecordIdView| c.contains(y) <==> (a.contains(y) || y == x) by {
        if c.contains(y) {
            let k = choose|k: int| 0 <= k < c.len() && c[k] == y;
            if k < a.len() {
                assert(a[k] == y);
            }
        }
        if a.contains(y) {
            let k = choose|k: int| 0 <= k < a.len() && a[k] == y;
            assert(c[k] == y);
        }
        if y == x {
            assert(c[a.len() as int] == x);
        }
    }
    if c.no_duplicates() {
        assert forall|i: int, j: int| 0 <= i < a.len() && 0 <= j < a.len() && i != j implies a[i] != a[j] by {
            assert(c[i] == a[i] && c[j] == a[j]);
        }
        if a.contains(x) {
            let k = choose|k: int| 0 <= k < a.len() && a[k] == x;
            assert(c[k] == x && c[a.len() as int] == x);
        }
    }
    if a.no_duplicates() && !a.contains(x) {
        assert forall|i: int, j: int| 0 <= i < c.len() && 0 <= j < c.len() && i != j implies c[i] != c[j] by {
            if i < a.len() && j < a.len() {
            } else if i < a.len() {
                assert(a.contains(c[i]));
            } else if j < a.len() {
                assert(a.contains(c[j]));
            }
        }
    }
}

proof fn lemma_tail_distinct(a: Seq<RecordIdView>)
    requires
        a.len() > 0,
        a.no_duplicates(),
    ensures
        a.subrange(1, a.len() as int).no_duplicates(),
        !a.subrange(1, a.len() as int).contains(a[0]),
        forall|y: RecordIdView| a.subrange(1, a.len() as int).contains(y) ==> a.contains(y),
{
    let t = a.subrange(1, a.len() as int);
    assert forall|y: RecordIdView| t.contains(y) implies a.contains(y) by {
        let k = choose|k: int| 0 <= k < t.len() && t[k] == y;
        assert(a[k + 1] == y);
    }
    if t.contains(a[0]) {
        let k = choose|k: int| 0 <= k < t.len() && t[k] == a[0];
        assert(a[k + 1] == a[0]);
    }
}

/// While producers queue only items that the scheduler does not hold, and
/// only items that have a slot come back from a backoff, no event makes the
/// scheduler hold an identifier twice.
pub proof fn law_step_keeps_ids_distinct<T: Schedulable>(s: SchedulerView<T>, event: SchedulerEvent<T>)
    requires
        s.distinct(),
        admissible(s, event),
    ensures
        next(s, event).distinct(),
{
    let q = ids_of(s.queue);
    let r = s.in_flight;
    lemma_concat_distinct(q, r);
    match event {
        SchedulerEvent::Enqueue(item) => {
            if !s.closed {
                let x = item.spec_id();
                assert(ids_of(s.queue.push(item)) =~= q.push(x));
                lemma_push_distinct(q, x);
                assert(!q.contains(x)) by {
                    if q.contains(x) {
                        let k = choose|k: int| 0 <= k < q.len() && q[k] == x;
                        assert((q + r)[k] == x);
                    }
                }
                assert(!r.contains(x)) by {
                    if r.contains(x) {
                        let k = choose|k: int| 0 <= k < r.len() && r[k] == x;
                        assert((q + r)[q.len() + k] == x);
                    }
                }
                lemma_concat_distinct(q.push(x), r);
                assert(next(s, event).live_ids() == q.push(x) + r);
            }
        },
        SchedulerEvent::Poll(paused) => {
            if s.decision(paused) == Decision::Run {
                let x = s.queue[0].spec_id();
                let q2 = ids_of(s.queue.subrange(1, s.queue.len() as int));
                assert(q2 =~= q.subrange(1, q.len() as int));
                assert(q[0] == x);
                lemma_tail_distinct(q);
                assert(q.contains(x));
                lemma_push_distinct(r, x);
                assert(!r.contains(x));
                assert forall|y: RecordIdView| !(q2.contains(y) && r.push(x).contains(y)) by {
                    if q2.contains(y) {
                        assert(q.contains(y));
                        assert(!r.contains(y));
                    }
                }
                lemma_concat_distinct(q2, r.push(x));
                assert(next(s, event).live_ids() == q2 + r.push(x));
            }
        },
        SchedulerEvent::Complete(item, failed) => {
            lemma_remove_value_sub(r, item.spec_id());
            assert forall|y: RecordIdView| !(q.contains(y) && r.remove_value(item.spec_id()).contains(y)) by {
                if r.remove_value(item.spec_id()).contains(y) {
                    assert(r.contains(y));
                }
            }
            lemma_concat_distinct(q, r.remove_value(item.spec_id()));
        },
        SchedulerEvent::Requeue(item) => {
            let x = item.spec_id();
            let r2 = r.remove_value(x);
            lemma_remove_value_sub(r, x);
            if !s.closed {
                assert(ids_of(s.queue.push(item)) =~= q.push(x));
                lemma_push_distinct(q, x);
                assert(!q.contains(x));
                assert forall|y: RecordIdView| !(q.push(x).contains(y) && r2.contains(y)) by {
                    if r2.contains(y) {
                        assert(r.contains(y));
                        assert(!q.contains(y));
                    }
                }
                lemma_concat_distinct(q.push(x), r2);
                assert(next(s, event).live_ids() == q.push(x) + r2);
            } else {
                assert forall|y: RecordIdView| !(q.contains(y) && r2.contains(y)) by {
                    if r2.contains(y) {
                        assert(r.contains(y));
                    }
                }
                lemma_concat_distinct(q, r2);
            }
        },
    }
}

/// At most one in flight per identifier: from a state that holds no
/// identifier twice, after any admissible events, no identifier is in flight
/// twice, and none is both queued and in flight.
pub proof fn law_one_in_flight_per_id<T: Schedulable>(s: SchedulerView<T>, events: Seq<SchedulerEvent<T>>)
    requires
        s.distinct(),
        all_admissible(s, events),
    ensures
        run(s, events).distinct(),
        run(s, events).in_flight.no_duplicates(),
        forall|id: RecordIdView|
            !(ids_of(run(s, events).queue).contains(id) && run(s, events).in_flight.contains(id)),
    decreases events.len(),
{
    if events.len() > 0 {
        law_one_in_flight_per_id(s, events.drop_last());
        law_step_keeps_ids_distinct(run(s, events.drop_last()), events.last());
    }
    lemma_concat_distinct(ids_of(run(s, events).queue), run(s, events).in_flight);
}

/// The retry count of an item after `failures` failed executions in a row,
/// the first of them at the count `start`. An item is executed again only
/// if it was queued again, that is while its count is below the ceiling.
pub open spec fn count_after(start: u32, failures: nat) -> u32
    decreases failures,
{
    if failures == 0 {
        start
    } else if failures == 1 || count_after(start, (failures - 1) as nat) < RETRY_CEILING {
        bumped(count_after(start, (failures - 1) as nat))
    } else {
        count_after(start, (failures - 1) as nat)
    }
}

/// Retry bound: an item that is first executed with a retry count no larger
/// than the ceiling never has a count above the ceiling plus one, however
/// often it fails; one that starts below the ceiling never exceeds the
/// ceiling.
pub proof fn law_retry_bound(start: u32, failures: nat)
    ensures
        start <= RETRY_CEILING ==> count_after(start, failures) <= RETRY_CEILING + 1,
        start < RETRY_CEILING ==> count_after(start, failures) <= RETRY_CEILING,
    decreases failures,
{
    if failures > 0 {
        law_retry_bound(start, (failures - 1) as nat);
    }
}

/// A failed item is queued again exactly while its new retry count is below
/// the ceiling; an abandoned item releases its slot.
pub proof fn law_failure_requeues_below_ceiling<T: Schedulable>(s: SchedulerView<T>, item: T)
    ensures
        bumped(item.spec_retry_count()) < RETRY_CEILING ==> s.complete(item, true) == s,
        bumped(item.spec_retry_count()) >= RETRY_CEILING ==> s.complete(item, true) == s.release(
            item.spec_id(),
        ),
{
}

proof fn lemma_enqueue_all_keeps<T: Schedulable>(s: SchedulerView<T>, items: Seq<T>)
    ensures
        s.enqueue_all(items).in_flight == s.in_flight,
        s.enqueue_all(items).limit == s.limit,
        s.enqueue_all(items).closed == s.closed,
        !s.closed ==> s.enqueue_all(items).queue == s.queue + items,
        s.closed ==> s.enqueue_all(items).queue == s.queue,
    decreases items.len(),
{
    if items.len() > 0 {
        lemma_enqueue_all_keeps(s, items.drop_last());
        if !s.closed {
            assert((s.queue + items.drop_last()).push(items.last()) =~= s.queue + items);
        }
    } else {
        assert(s.queue + items =~= s.queue);
    }
}

/// Pause honoured: while the pause is engaged, whatever is queued, a look
/// for work dispatches nothing and changes nothing, so the items in flight
/// are the same before and after; the end of an execution does not depend
/// on the pause.
pub proof fn law_pause_blocks_dispatch<T: Schedulable>(s: SchedulerView<T>, items: Seq<T>)
    ensures
        s.enqueue_all(items).decision(true) != Decision::Run,
        s.enqueue_all(items).poll(true) == s.enqueue_all(items),
        s.enqueue_all(items).in_flight == s.in_flight,
        !s.closed ==> s.enqueue_all(items).queue == s.queue + items,
{
    lemma_enqueue_all_keeps(s, items);
}

/// After the pause is lifted, the oldest queued item is dispatched as soon
/// as a slot is free.
pub proof fn law_resume_dispatches<T: Schedulable>(s: SchedulerView<T>)
    requires
        s.queue.len() > 0,
        s.in_flight.len() < s.limit,
    ensures
        s.decision(false) == Decision::Run,
        s.poll(false).in_flight == s.in_flight.push(s.queue[0].spec_id()),
        s.poll(false).queue == s.queue.subrange(1, s.queue.len() as int),
{
}

} // verus!
