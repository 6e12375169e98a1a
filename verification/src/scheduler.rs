use vstd::prelude::*;
use crate::json::{lemma_object_view, lemma_with_member_view, member_views, overlay, set_member, Json, JsonNumber, JsonView};
use crate::job::HandleSignal;
use crate::record::{id_views, RecordId, RecordIdView};

verus! {

/// Failed attempts after which a work item is no longer re-queued.
pub const RETRY_CEILING: u32 = 5;

/// Seconds to wait before a failed item is queued again.
pub const BACKOFF_SECS: u64 = 5;

/// Milliseconds between two looks at the pause flag while paused.
pub const PAUSE_POLL_MILLIS: u64 = 200;

/// Work items that may be in flight at once, by default.
pub const DEFAULT_LIMIT: usize = 10;

/// Where a work item stands in its lifecycle.
#[derive(Debug, Clone, Copy, PartialEq, Eq, Structural)]
pub enum Status {
    Pending,
    Running,
    Succeeded,
    Failed,
}

impl Status {
    /// The status' name in a persisted record.
    pub open spec fn name(self) -> Seq<char> {
        match self {
            Status::Pending => "Pending"@,
            Status::Running => "Running"@,
            Status::Succeeded => "Succeeded"@,
            Status::Failed => "Failed"@,
        }
    }

    pub fn as_str(&self) -> (r: &'static str)
        ensures
            r@ == self.name(),
    {
        match self {
            Status::Pending => "Pending",
            Status::Running => "Running",
            Status::Succeeded => "Succeeded",
            Status::Failed => "Failed",
        }
    }
}

/// The members of the patch that records `status`, with the members `extra`
/// laid over it.
pub open spec fn status_members(status: Status, extra: Seq<(Seq<char>, JsonView)>) -> Seq<
    (Seq<char>, JsonView),
> {
    overlay(seq![("status"@, JsonView::Str(status.name()))], extra)
}

/// The partial update of a work item's record that sets its status and,
/// over that, the members of `extra`. What is given as `extra` has to be an
/// object.
pub fn status_patch(status: Status, extra: Option<Json>) -> (patch: Json)
    requires
        extra is Some ==> extra->0 is Object,
    ensures
        patch@ == JsonView::Object(
            status_members(
                status,
                match extra {
                    Some(e) => member_views(e.members()->0),
                    None => Seq::empty(),
                },
            ),
        ),
{
    let mut data: Vec<(String, Json)> = Vec::new();
    data.push((String::from_str("status"), Json::string(status.as_str())));
    let ghost base = seq![("status"@, JsonView::Str(status.name()))];
    assert(member_views(data@) =~= base);
    match extra {
        Some(Json::Object(members)) => {
            let ghost all = members@;
            let mut rest = crate::seqs::reversed(members);
            assert(member_views(all).subrange(0, 0) =~= Seq::empty());
            while rest.len() > 0
                invariant
                    rest@.len() <= all.len(),
                    forall|j: int| 0 <= j < rest@.len() ==> rest@[j] == all[all.len() - 1 - j],
                    member_views(data@) == overlay(
                        base,
                        member_views(all).subrange(0, all.len() - rest@.len()),
                    ),
                decreases rest@.len(),
            {
                let ghost done = all.len() - rest@.len();
                let ghost before = member_views(all).subrange(0, done);
                let ghost after = member_views(all).subrange(0, done + 1);
                let member = rest.pop().unwrap();
                assert(member == all[done]);
                assert(after.drop_last() =~= before);
                assert(after.last() == (member.0@, member.1@));
                proof {
                    lemma_with_member_view(data@, member.0, member.1);
                }
                set_member(&mut data, member.0, member.1);
            }
            assert(member_views(all).subrange(0, all.len() as int) =~= member_views(all));
        },
        _ => {},
    }
    proof {
        lemma_object_view(data);
    }
    Json::Object(data)
}

/// What is recorded of a failed execution besides the status: the error
/// and the new retry count.
pub fn failure_extra(error: &str, retry_count: u32) -> (extra: Json)
    ensures
        extra is Object,
        member_views(extra.members()->0) == seq![
            ("error"@, JsonView::Str(error@)),
            ("retry_count"@, JsonView::Number(JsonNumber::Unsigned(retry_count as u64))),
        ],
{
    let mut data: Vec<(String, Json)> = Vec::new();
    data.push((String::from_str("error"), Json::string(error)));
    data.push((String::from_str("retry_count"), Json::number(retry_count as u64)));
    assert(member_views(data@) =~= seq![
        ("error"@, JsonView::Str(error@)),
        ("retry_count"@, JsonView::Number(JsonNumber::Unsigned(retry_count as u64))),
    ]);
    Json::Object(data)
}

/// What an execution of a work item does.
#[derive(Debug, Clone, Copy, PartialEq, Eq, Structural)]
pub enum Work {
    /// Fetch an asset from its address.
    AssetDownload,
    /// Move an imported asset under the save directory.
    AssetTransport,
    /// Ingest one page of the user's likes.
    ScanLikes,
}

/// What an item's own success logic decides.
#[derive(Debug, Clone, Copy, PartialEq, Eq, Structural)]
pub enum AfterSuccess {
    /// The work is complete: with `notify`, tell the interface to refresh;
    /// then delete the item's record.
    Delete { notify: bool },
    /// More work follows: the item stays as good as pending and is queued
    /// again at once.
    Continue,
}

/// The capabilities of a kind of work item.
///
/// Loading, persisting, executing and deleting an item are effects of the
/// runtime around the scheduler; the item and the scheduler decide and
/// record.
pub trait Schedulable: Sized {
    /// The item's identifier, unique within its kind.
    spec fn spec_id(&self) -> RecordIdView;

    spec fn spec_status(&self) -> Status;

    spec fn spec_retry_count(&self) -> u32;

    /// The same item with another status and retry count.
    spec fn progressed(self, status: Status, retry_count: u32) -> Self;

    /// `progressed` sets status and retry count and keeps the identifier.
    proof fn lemma_progressed(self, status: Status, retry_count: u32)
        ensures
            self.progressed(status, retry_count).spec_id() == self.spec_id(),
            self.progressed(status, retry_count).spec_status() == status,
            self.progressed(status, retry_count).spec_retry_count() == retry_count,
    ;

    fn id(&self) -> (r: RecordId)
        ensures
            r@ == self.spec_id(),
    ;

    fn status(&self) -> (r: Status)
        ensures
            r == self.spec_status(),
    ;

    fn retry_count(&self) -> (r: u32)
        ensures
            r == self.spec_retry_count(),
    ;

    fn with_progress(self, status: Status, retry_count: u32) -> (r: Self)
        ensures
            r == self.progressed(status, retry_count),
    ;

    /// What an execution of the item does.
    spec fn work(&self) -> Work;

    /// Says which handler executes the item.
    fn handle(&self) -> (w: Work)
        ensures
            w == self.work(),
    ;

    /// Whether `signal` says what the item's success logic has to know.
    spec fn heeds(&self, signal: Option<HandleSignal>) -> bool;

    /// What follows a successful execution that signalled `signal`.
    spec fn after_success(&self, signal: Option<HandleSignal>) -> AfterSuccess;

    /// Decides what follows a successful execution. The scheduler does not
    /// decide this: it only hands the signal on.
    fn on_success(&self, signal: Option<HandleSignal>) -> (a: AfterSuccess)
        requires
            self.heeds(signal),
        ensures
            a == self.after_success(signal),
    ;

    /// The partial update of the item's record that sets its status and,
    /// over that, the members of `extra`, which has to be an object.
    fn update_status(&self, status: Status, extra: Option<Json>) -> (patch: Json)
        requires
            extra is Some ==> extra->0 is Object,
        ensures
            patch@ == JsonView::Object(
                status_members(
                    status,
                    match extra {
                        Some(e) => member_views(e.members()->0),
                        None => Seq::empty(),
                    },
                ),
            ),
    ;
}

/// The retry count after one more failed attempt.
pub open spec fn bumped(retry_count: u32) -> u32 {
    if retry_count < u32::MAX {
        (retry_count + 1) as u32
    } else {
        retry_count
    }
}

/// The retry count after one more failed attempt; it stops at the largest
/// number a record can hold.
pub fn bump_retry(retry_count: u32) -> (r: u32)
    ensures
        r == bumped(retry_count),
{
    if retry_count < u32::MAX {
        retry_count + 1
    } else {
        retry_count
    }
}

/// Whether an item that has failed `retry_count` times is tried again.
pub fn retries_remain(retry_count: u32) -> (b: bool)
    ensures
        b == (retry_count < RETRY_CEILING),
{
    retry_count < RETRY_CEILING
}

/// The process-wide pause switch. One switch serves every scheduler.
#[derive(Debug, Clone, Copy, PartialEq, Eq, Structural)]
pub struct PauseFlag {
    pub paused: bool,
}

impl PauseFlag {
    pub fn new() -> (r: PauseFlag)
        ensures
            !r.paused,
    {
        PauseFlag { paused: false }
    }

    pub fn pause(&mut self)
        ensures
            final(self).paused,
    {
        self.paused = true;
    }

    pub fn resume(&mut self)
        ensures
            !final(self).paused,
    {
        self.paused = false;
    }

    pub fn is_paused(&self) -> (b: bool)
        ensures
            b == self.paused,
    {
        self.paused
    }
}

/// Tells the interface whether dispatch is paused.
#[derive(Debug, Clone, Copy, PartialEq, Eq, Structural)]
pub struct SchedulerPauseEvent {
    pub paused: bool,
}

/// Engages the pause and says what to tell the interface.
pub fn pause_scheduler(flag: &mut PauseFlag) -> (ev: SchedulerPauseEvent)
    ensures
        final(flag).paused,
        ev.paused,
{
    flag.pause();
    SchedulerPauseEvent { paused: true }
}

/// Lifts the pause and says what to tell the interface.
pub fn resume_scheduler(flag: &mut PauseFlag) -> (ev: SchedulerPauseEvent)
    ensures
        !final(flag).paused,
        !ev.paused,
{
    flag.resume();
    SchedulerPauseEvent { paused: false }
}

/// Why a scheduler's handle gave no scheduler.
#[derive(Debug, Clone, Copy, PartialEq, Eq, Structural)]
pub enum HandleError {
    /// The scheduler of this kind has not been set up yet.
    NotInitialised,
}

/// The write-once handle of the scheduler of one kind of work item: it is
/// made empty and explicitly, handed to whoever needs the scheduler, and
/// takes its value once.
#[derive(Debug)]
pub struct Handle<S> {
    pub slot: Option<S>,
}

impl<S> Handle<S> {
    /// An empty handle.
    pub fn new() -> (h: Handle<S>)
        ensures
            h.slot is None,
    {
        Handle { slot: None }
    }

    /// Sets the handle's value if it has none. The result says whether the
    /// value was taken; a handle that has a value keeps it.
    pub fn init(&mut self, value: S) -> (taken: bool)
        ensures
            taken == old(self).slot is None,
            final(self).slot == if taken {
                Some(value)
            } else {
                old(self).slot
            },
    {
        if self.slot.is_none() {
            self.slot = Some(value);
            true
        } else {
            false
        }
    }

    /// The handle's value, once it is set.
    pub fn get(&self) -> (r: Result<&S, HandleError>)
        ensures
            match r {
                Ok(value) => self.slot == Some(*value),
                Err(e) => self.slot is None && e == HandleError::NotInitialised,
            },
    {
        match &self.slot {
            Some(value) => Ok(value),
            None => Err(HandleError::NotInitialised),
        }
    }
}

/// How one execution of a work item ended.
#[derive(Debug)]
pub enum Outcome {
    Succeeded,
    /// The handler's error, as text.
    Failed(String),
}

/// What the dispatch loop does next.
#[derive(Debug)]
pub enum Dispatch<T> {
    /// Nothing is queued.
    Idle,
    /// The pause is engaged: look again after `PAUSE_POLL_MILLIS`.
    Paused,
    /// Every in-flight slot is taken: look again when one is released.
    Saturated,
    /// Persist the item's status, then execute the item.
    Run(T),
}

/// What follows one execution of a work item.
#[derive(Debug)]
pub enum Followup<T> {
    /// The item's own success logic decides between deletion and
    /// continuation.
    Succeeded(T),
    /// Persist status, error and retry count of `item`, wait
    /// `BACKOFF_SECS`, then hand the item to `requeue`.
    Retry { item: T, error: String },
    /// Persist status, error and retry count of `item`. It stays failed in
    /// the store.
    Abandoned { item: T, error: String },
}

/// The identifiers of `items`, in order.
pub open spec fn ids_of<T: Schedulable>(items: Seq<T>) -> Seq<RecordIdView> {
    items.map_values(|t: T| t.spec_id())
}

/// The scheduler's state as a mathematical value.
pub struct SchedulerView<T> {
    /// The items that wait, oldest first.
    pub queue: Seq<T>,
    /// The identifiers of the items in flight: dispatched and neither
    /// finished nor queued again.
    pub in_flight: Seq<RecordIdView>,
    /// How many items may be in flight at once.
    pub limit: nat,
    /// Whether the queue takes no more items.
    pub closed: bool,
}

/// The kind of a dispatch decision.
pub enum Decision {
    Idle,
    Paused,
    Saturated,
    Run,
}

impl<T: Schedulable> SchedulerView<T> {
    /// A scheduler that holds nothing yet, with `limit` in-flight slots.
    pub open spec fn fresh(limit: nat) -> Self {
        SchedulerView { queue: Seq::empty(), in_flight: Seq::empty(), limit, closed: false }
    }

    /// The identifiers of all items the scheduler holds, queued or in flight.
    pub open spec fn live_ids(self) -> Seq<RecordIdView> {
        ids_of(self.queue) + self.in_flight
    }

    /// No identifier is held twice.
    pub open spec fn distinct(self) -> bool {
        self.live_ids().no_duplicates()
    }

    pub open spec fn holds(self, id: RecordIdView) -> bool {
        self.live_ids().contains(id)
    }

    pub open spec fn enqueue(self, item: T) -> Self {
        if self.closed {
            self
        } else {
            SchedulerView { queue: self.queue.push(item), ..self }
        }
    }

    /// All of `items` queued, in order.
    pub open spec fn enqueue_all(self, items: Seq<T>) -> Self
        decreases items.len(),
    {
        if items.len() == 0 {
            self
        } else {
            self.enqueue_all(items.drop_last()).enqueue(items.last())
        }
    }

    pub open spec fn decision(self, paused: bool) -> Decision {
        if self.queue.len() == 0 {
            Decision::Idle
        } else if paused {
            Decision::Paused
        } else if self.in_flight.len() >= self.limit {
            Decision::Saturated
        } else {
            Decision::Run
        }
    }

    /// The item that `poll` hands out when it decides to run one.
    pub open spec fn head(self) -> T
        recommends
            self.queue.len() > 0,
    {
        self.queue[0].progressed(Status::Running, self.queue[0].spec_retry_count())
    }

    pub open spec fn poll(self, paused: bool) -> Self {
        match self.decision(paused) {
            Decision::Run => SchedulerView {
                queue: self.queue.subrange(1, self.queue.len() as int),
                in_flight: self.in_flight.push(self.queue[0].spec_id()),
                ..self
            },
            _ => self,
        }
    }

    /// The state once the slot of `id` is released.
    pub open spec fn release(self, id: RecordIdView) -> Self {
        SchedulerView { in_flight: self.in_flight.remove_value(id), ..self }
    }

    /// The state after an execution of `item` that ended as `failed` says.
    pub open spec fn complete(self, item: T, failed: bool) -> Self {
        if failed && bumped(item.spec_retry_count()) < RETRY_CEILING {
            self
        } else {
            self.release(item.spec_id())
        }
    }

    pub open spec fn requeue(self, item: T) -> Self {
        self.release(item.spec_id()).enqueue(item)
    }
}

/// A generic engine that drives work items of one kind from pending to
/// running to their outcome, with bounded concurrency, a global pause and
/// bounded retries.
pub struct Scheduler<T: Schedulable> {
    queue: Vec<T>,
    running: Vec<RecordId>,
    limit: usize,
    closed: bool,
}

impl<T: Schedulable> View for Scheduler<T> {
    type V = SchedulerView<T>;

    closed spec fn view(&self) -> SchedulerView<T> {
        SchedulerView {
            queue: self.queue@,
            in_flight: id_views(self.running@),
            limit: self.limit as nat,
            closed: self.closed,
        }
    }
}

impl<T: Schedulable> Scheduler<T> {
    /// An empty scheduler with the default number of in-flight slots.
    pub fn new() -> (s: Self)
        ensures
            s@ == SchedulerView::<T>::fresh(DEFAULT_LIMIT as nat),
    {
        assert(id_views(Seq::<RecordId>::empty()) =~= Seq::<RecordIdView>::empty());
        Scheduler { queue: Vec::new(), running: Vec::new(), limit: DEFAULT_LIMIT, closed: false }
    }

    /// An empty scheduler with `limit` in-flight slots.
    pub fn with_limit(limit: usize) -> (s: Self)
        ensures
            s@ == SchedulerView::<T>::fresh(limit as nat),
    {
        assert(id_views(Seq::<RecordId>::empty()) =~= Seq::<RecordIdView>::empty());
        Scheduler { queue: Vec::new(), running: Vec::new(), limit, closed: false }
    }

    /// Sets up the scheduler of its kind: a new scheduler, with the items
    /// that were pending in the store queued, takes the handle if the handle
    /// is empty. The result says whether it did.
    pub fn init(handle: &mut Handle<Scheduler<T>>, pending: Vec<T>) -> (taken: bool)
        ensures
            taken == old(handle).slot is None,
            taken ==> final(handle).slot is Some && final(handle).slot->0@ == SchedulerView::<T>::fresh(
                DEFAULT_LIMIT as nat,
            ).enqueue_all(pending@),
            !taken ==> final(handle).slot == old(handle).slot,
    {
        if handle.slot.is_some() {
            return false;
        }
        let mut scheduler = Scheduler::new();
        scheduler.start(pending);
        handle.init(scheduler)
    }

    /// The scheduler of its kind, once it is set up.
    pub fn get(handle: &Handle<Scheduler<T>>) -> (r: Result<&Scheduler<T>, HandleError>)
        ensures
            match r {
                Ok(scheduler) => handle.slot == Some(*scheduler),
                Err(e) => handle.slot is None && e == HandleError::NotInitialised,
            },
    {
        handle.get()
    }

    /// Queues the items that were pending in the store, in their order.
    pub fn start(&mut self, pending: Vec<T>)
        ensures
            final(self)@ == old(self)@.enqueue_all(pending@),
    {
        let ghost all = pending@;
        let mut rest = crate::seqs::reversed(pending);
        let ghost start = self@;
        assert(start.enqueue_all(all.subrange(0, 0)) == start);
        while rest.len() > 0
            invariant
                rest@.len() <= all.len(),
                forall|j: int| 0 <= j < rest@.len() ==> rest@[j] == all[all.len() - 1 - j],
                self@ == start.enqueue_all(all.subrange(0, all.len() - rest@.len())),
            decreases rest.len(),
        {
            let ghost done = all.len() - rest@.len();
            let item = rest.pop().unwrap();
            assert(item == all[done]);
            assert(all.subrange(0, done + 1).drop_last() =~= all.subrange(0, done));
            assert(all.subrange(0, done + 1).last() == item);
            self.enqueue(item);
        }
        assert(all.subrange(0, all.len() as int) =~= all);
    }

    /// Adds one item to the queue. It never waits; once the queue is closed
    /// the item is dropped, and is found again among the pending items of
    /// the store at the next start.
    pub fn enqueue(&mut self, item: T)
        ensures
            final(self)@ == old(self)@.enqueue(item),
    {
        if !self.closed {
            self.queue.push(item);
        }
    }

    /// Closes the queue: from now on `enqueue` drops what it is given.
    pub fn close(&mut self)
        ensures
            final(self)@ == (SchedulerView { closed: true, ..old(self)@ }),
    {
        self.closed = true;
    }

    pub fn queued(&self) -> (n: usize)
        ensures
            n == self@.queue.len(),
    {
        self.queue.len()
    }

    pub fn in_flight(&self) -> (n: usize)
        ensures
            n == self@.in_flight.len(),
    {
        self.running.len()
    }

    pub fn limit(&self) -> (n: usize)
        ensures
            n == self@.limit,
    {
        self.limit
    }

    pub fn is_closed(&self) -> (b: bool)
        ensures
            b == self@.closed,
    {
        self.closed
    }

    /// Whether the item `id` is in flight.
    pub fn is_in_flight(&self, id: &RecordId) -> (b: bool)
        ensures
            b == self@.in_flight.contains(id@),
    {
        crate::record::contains_id(&self.running, id)
    }

    /// Decides what the dispatch loop does next. With the pause engaged, or
    /// with every slot taken, nothing is dispatched and nothing changes;
    /// else the oldest queued item takes a slot and is handed out, marked
    /// as running.
    pub fn poll(&mut self, paused: bool) -> (d: Dispatch<T>)
        ensures
            final(self)@ == old(self)@.poll(paused),
            match d {
                Dispatch::Idle => old(self)@.decision(paused) == Decision::Idle,
                Dispatch::Paused => old(self)@.decision(paused) == Decision::Paused,
                Dispatch::Saturated => old(self)@.decision(paused) == Decision::Saturated,
                Dispatch::Run(item) => old(self)@.decision(paused) == Decision::Run && item
                    == old(self)@.head(),
            },
    {
        if self.queue.len() == 0 {
            Dispatch::Idle
        } else if paused {
            Dispatch::Paused
        } else if self.running.len() >= self.limit {
            Dispatch::Saturated
        } else {
            let ghost before = self.running@;
            let item = self.queue.remove(0);
            let id = item.id();
            self.running.push(id);
            assert(id_views(self.running@) =~= id_views(before).push(item.spec_id()));
            let retries = item.retry_count();
            Dispatch::Run(item.with_progress(Status::Running, retries))
        }
    }

    /// Releases the slot of the item `id`, if it has one.
    fn release(&mut self, id: &RecordId)
        ensures
            final(self)@ == old(self)@.release(id@),
    {
        let ghost ids = id_views(self.running@);
        let mut i: usize = 0;
        while i < self.running.len()
            invariant
                i <= self.running.len(),
                *self == *old(self),
                ids == id_views(self.running@),
                forall|j: int| 0 <= j < i ==> ids[j] != id@,
            decreases self.running.len() - i,
        {
            if self.running[i].same(id) {
                assert(ids[i as int] == id@);
                proof {
                    ids.index_of_first_ensures(id@);
                }
                self.running.remove(i);
                assert(id_views(self.running@) =~= ids.remove(i as int));
                return ;
            }
            i += 1;
        }
        proof {
            ids.index_of_first_ensures(id@);
        }
    }

    /// Records how an execution of `item` ended and says what follows. A
    /// success releases the slot. A failure counts one more retry; below the
    /// ceiling the item keeps its slot through the backoff and is to be
    /// queued again, else it is abandoned and the slot released.
    pub fn complete(&mut self, item: T, outcome: Outcome) -> (f: Followup<T>)
        ensures
            final(self)@ == old(self)@.complete(item, outcome is Failed),
            match outcome {
                Outcome::Succeeded => f == Followup::Succeeded(item),
                Outcome::Failed(error) => {
                    let failed = item.progressed(Status::Failed, bumped(item.spec_retry_count()));
                    if bumped(item.spec_retry_count()) < RETRY_CEILING {
                        f == (Followup::Retry { item: failed, error })
                    } else {
                        f == (Followup::Abandoned { item: failed, error })
                    }
                },
            },
    {
        match outcome {
            Outcome::Succeeded => {
                let id = item.id();
                self.release(&id);
                Followup::Succeeded(item)
            },
            Outcome::Failed(error) => {
                let retries = bump_retry(item.retry_count());
                if retries_remain(retries) {
                    Followup::Retry { item: item.with_progress(Status::Failed, retries), error }
                } else {
                    let id = item.id();
                    self.release(&id);
                    Followup::Abandoned { item: item.with_progress(Status::Failed, retries), error }
                }
            },
        }
    }

    /// Queues a failed item again once its backoff has passed, and releases
    /// the slot it held meanwhile.
    pub fn requeue(&mut self, item: T)
        ensures
            final(self)@ == old(self)@.requeue(item),
    {
        let id = item.id();
        self.release(&id);
        self.enqueue(item);
    }
}

} // verus!
