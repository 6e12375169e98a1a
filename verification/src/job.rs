use vstd::prelude::*;
use crate::json::{lemma_object_view, member_views, Json, JsonView};
use crate::record::{RecordId, RecordIdView};
use crate::scheduler::{status_members, status_patch, AfterSuccess, Schedulable, Status, Work};
use crate::seqs::reversed;

verus! {

/// What a job is for.
#[derive(Debug, Clone, Copy, PartialEq, Eq, Structural)]
pub enum Mission {
    ScanLikes,
}

impl Mission {
    pub open spec fn name(self) -> Seq<char> {
        match self {
            Mission::ScanLikes => "scan_likes"@,
        }
    }

    pub fn as_str(self) -> (r: &'static str)
        ensures
            r@ == self.name(),
    {
        match self {
            Mission::ScanLikes => "scan_likes",
        }
    }
}

/// What a successful execution hands to the item's own success logic.
#[derive(Debug)]
pub struct HandleSignal {
    pub value: Json,
}

/// A long-running, resumable unit of work that proceeds page by page.
#[derive(Debug)]
pub struct Job {
    pub id: RecordId,
    pub mission: Mission,
    pub status: Status,
    /// Where the job has come to: cursor, count, last sort index, end flag.
    pub params: Json,
    /// Identifiers that were known when the scan began; the consumers of a
    /// scan that has them are told when it ends.
    pub end_band: Vec<RecordId>,
    pub error: Option<String>,
    pub retry_count: u32,
    pub max_retry_count: u32,
    /// Milliseconds since the epoch.
    pub started_at: Option<i64>,
    /// Milliseconds since the epoch.
    pub finished_at: Option<i64>,
}

/// Tells the interface that a scan has added to what it shows.
#[derive(Debug, Clone, Copy, PartialEq, Eq, Structural)]
pub struct ScanLikesIncEvent {
    pub need_refresh: bool,
}

/// Whether `signal` says that the scan has reached its end; `None` where it
/// says nothing of it. A flag that is no truth value counts as false.
pub open spec fn end_flag(signal: Option<HandleSignal>) -> Option<bool> {
    match signal {
        Some(s) => match s.value.field("is_end"@) {
            Some(flag) => match flag.truth() {
                Some(b) => Some(b),
                None => Some(false),
            },
            None => None,
        },
        None => None,
    }
}

/// Whether `signal` says that the scan has reached its end.
pub fn signalled_end(signal: &Option<HandleSignal>) -> (r: Option<bool>)
    ensures
        r == end_flag(*signal),
{
    match signal {
        Some(s) => match s.value.get("is_end") {
            Some(flag) => match flag.as_bool() {
                Some(b) => Some(b),
                None => Some(false),
            },
            None => None,
        },
        None => None,
    }
}

/// The signal of an execution that reached the end of the scan, or not.
pub fn end_signal(is_end: bool) -> (signal: HandleSignal)
    ensures
        end_flag(Some(signal)) == Some(is_end),
        signal.value@ == JsonView::Object(seq![("is_end"@, JsonView::Bool(is_end))]),
{
    let mut members: Vec<(String, Json)> = Vec::new();
    members.push((String::from_str("is_end"), Json::Bool(is_end)));
    assert(crate::json::lookup(members@, "is_end"@) == Some(Json::Bool(is_end)));
    proof {
        lemma_object_view(members);
        assert(crate::json::json_view(Json::Bool(is_end)) == JsonView::Bool(is_end));
        assert(member_views(members@) =~= seq![("is_end"@, JsonView::Bool(is_end))]);
    }
    HandleSignal { value: Json::Object(members) }
}

impl Schedulable for Job {
    open spec fn spec_id(&self) -> RecordIdView {
        self.id@
    }

    open spec fn spec_status(&self) -> Status {
        self.status
    }

    open spec fn spec_retry_count(&self) -> u32 {
        self.retry_count
    }

    open spec fn progressed(self, status: Status, retry_count: u32) -> Self {
        Job { status, retry_count, ..self }
    }

    proof fn lemma_progressed(self, status: Status, retry_count: u32) {
    }

    fn id(&self) -> (r: RecordId) {
        self.id.clone()
    }

    fn status(&self) -> (r: Status) {
        self.status
    }

    fn retry_count(&self) -> (r: u32) {
        self.retry_count
    }

    fn with_progress(self, status: Status, retry_count: u32) -> (r: Self) {
        let mut job = self;
        job.status = status;
        job.retry_count = retry_count;
        job
    }

    open spec fn work(&self) -> Work {
        match self.mission {
            Mission::ScanLikes => Work::ScanLikes,
        }
    }

    fn handle(&self) -> (w: Work) {
        match self.mission {
            Mission::ScanLikes => Work::ScanLikes,
        }
    }

    /// The signal has to say whether the scan has reached its end.
    open spec fn heeds(&self, signal: Option<HandleSignal>) -> bool {
        end_flag(signal) is Some
    }

    /// While the scan has not reached its end the job continues; at its end
    /// the job is deleted, and its end is announced if it notifies.
    open spec fn after_success(&self, signal: Option<HandleSignal>) -> AfterSuccess {
        if end_flag(signal) == Some(true) {
            AfterSuccess::Delete { notify: self.notifies() }
        } else {
            AfterSuccess::Continue
        }
    }

    fn on_success(&self, signal: Option<HandleSignal>) -> (a: AfterSuccess) {
        match signalled_end(&signal) {
            Some(true) => AfterSuccess::Delete {
                notify: self.end_band.len() > 0 && self.mission == Mission::ScanLikes,
            },
            _ => AfterSuccess::Continue,
        }
    }

    fn update_status(&self, status: Status, extra: Option<Json>) -> (patch: Json) {
        status_patch(status, extra)
    }
}

impl Job {
    /// Whether the end of this job is announced to the interface.
    pub open spec fn notifies(self) -> bool {
        self.end_band@.len() > 0 && self.mission == Mission::ScanLikes
    }

    /// The partial update of the job's record that replaces its progress
    /// parameters.
    pub fn update_params(&self, params: Json) -> (patch: Json)
        ensures
            patch@ == JsonView::Object(seq![("params"@, params@)]),
    {
        let mut members: Vec<(String, Json)> = Vec::new();
        members.push((String::from_str("params"), params));
        proof {
            lemma_object_view(members);
            assert(member_views(members@) =~= seq![("params"@, params@)]);
        }
        Json::Object(members)
    }
}

/// One pending job, put before the user, and the user's answer to it.
#[derive(Debug, Clone, Copy, PartialEq, Eq)]
pub struct JobCheckEvent {
    pub mission: Mission,
    pub user_say: Option<bool>,
}

/// The jobs that were pending from an earlier run, put before the user.
#[derive(Debug)]
pub struct JobChecksEvent {
    pub jobs: Vec<JobCheckEvent>,
}

/// What is put before the user of the pending jobs `pending`.
pub open spec fn checks_of(pending: Seq<Job>) -> Seq<JobCheckEvent> {
    pending.map_values(|j: Job| JobCheckEvent { mission: j.mission, user_say: None })
}

/// Puts the jobs that were pending from an earlier run before the user, each
/// without an answer yet.
pub fn jobs_for_event(pending: &Vec<Job>) -> (ev: JobChecksEvent)
    ensures
        ev.jobs@ == checks_of(pending@),
{
    let mut jobs: Vec<JobCheckEvent> = Vec::new();
    let mut i: usize = 0;
    while i < pending.len()
        invariant
            i <= pending.len(),
            jobs@.len() == i,
            forall|j: int|
                0 <= j < i ==> jobs@[j] == (JobCheckEvent { mission: pending@[j].mission, user_say: None }),
        decreases pending.len() - i,
    {
        jobs.push(JobCheckEvent { mission: pending[i].mission, user_say: None });
        i += 1;
    }
    assert(jobs@ =~= checks_of(pending@));
    JobChecksEvent { jobs }
}

/// Whether the user's reply says to resume the job of `mission`: the first
/// answer to that mission decides, and no answer means no.
pub open spec fn confirmed(mission: Mission, reply: Seq<JobCheckEvent>) -> bool
    decreases reply.len(),
{
    if reply.len() == 0 {
        false
    } else if reply[0].mission == mission {
        reply[0].user_say == Some(true)
    } else {
        confirmed(mission, reply.skip(1))
    }
}

pub fn is_confirmed(mission: Mission, reply: &Vec<JobCheckEvent>) -> (b: bool)
    ensures
        b == confirmed(mission, reply@),
{
    let mut i: usize = 0;
    assert(reply@.skip(0) =~= reply@);
    while i < reply.len()
        invariant
            i <= reply.len(),
            confirmed(mission, reply@) == confirmed(mission, reply@.skip(i as int)),
        decreases reply.len() - i,
    {
        let ghost rest = reply@.skip(i as int);
        assert(rest[0] == reply@[i as int]);
        assert(rest.skip(1) =~= reply@.skip(i as int + 1));
        if reply[i].mission == mission {
            return match reply[i].user_say {
                Some(true) => true,
                _ => false,
            };
        }
        i += 1;
    }
    false
}

/// The jobs of `pending` that the reply says to resume, in their order.
pub open spec fn resumable(pending: Seq<Job>, reply: Seq<JobCheckEvent>) -> Seq<Job>
    decreases pending.len(),
{
    if pending.len() == 0 {
        Seq::empty()
    } else if confirmed(pending.last().mission, reply) {
        resumable(pending.drop_last(), reply).push(pending.last())
    } else {
        resumable(pending.drop_last(), reply)
    }
}

/// Picks the pending jobs that the user said to resume. The others are not
/// started; a job is never resumed without the user's word.
pub fn jobs_to_resume(pending: Vec<Job>, reply: &Vec<JobCheckEvent>) -> (jobs: Vec<Job>)
    ensures
        jobs@ == resumable(pending@, reply@),
{
    let ghost all = pending@;
    let mut rest = reversed(pending);
    let mut jobs: Vec<Job> = Vec::new();
    assert(all.subrange(0, 0) =~= Seq::empty());
    while rest.len() > 0
        invariant
            rest@.len() <= all.len(),
            forall|j: int| 0 <= j < rest@.len() ==> rest@[j] == all[all.len() - 1 - j],
            jobs@ == resumable(all.subrange(0, all.len() - rest@.len()), reply@),
        decreases rest@.len(),
    {
        let ghost done = all.len() - rest@.len();
        let job = rest.pop().unwrap();
        assert(job == all[done]);
        assert(all.subrange(0, done + 1).drop_last() =~= all.subrange(0, done));
        assert(all.subrange(0, done + 1).last() == job);
        if is_confirmed(job.mission, reply) {
            jobs.push(job);
        }
    }
    assert(all.subrange(0, all.len() as int) =~= all);
    jobs
}

/// Why a reply to the pending-job question was not taken.
#[derive(Debug, Clone, Copy, PartialEq, Eq, Structural)]
pub enum ReplyError {
    /// Nobody waits for a reply: none was asked for, or one was given
    /// already.
    NotWaiting,
}

/// The one-time question about pending jobs that the startup puts to the
/// user: armed while the startup waits for the reply.
#[derive(Debug)]
pub struct PendingJobCheck {
    pub waiting: bool,
}

impl PendingJobCheck {
    pub fn new() -> (c: PendingJobCheck)
        ensures
            !c.waiting,
    {
        PendingJobCheck { waiting: false }
    }

    /// The startup has asked and now waits for the reply.
    pub fn arm(&mut self)
        ensures
            final(self).waiting,
    {
        self.waiting = true;
    }

    /// The startup has its reply, or has given up waiting.
    pub fn clear(&mut self)
        ensures
            !final(self).waiting,
    {
        self.waiting = false;
    }
}

/// Takes the user's reply to the pending-job question. It is handed on to
/// the waiting startup once; a second reply, or one that nobody asked for,
/// is refused.
pub fn reply_pending_jobs(check: &mut PendingJobCheck, jobs: Vec<JobCheckEvent>) -> (r: Result<
    Vec<JobCheckEvent>,
    ReplyError,
>)
    ensures
        !final(check).waiting,
        old(check).waiting ==> r == Ok::<Vec<JobCheckEvent>, ReplyError>(jobs),
        !old(check).waiting ==> r == Err::<Vec<JobCheckEvent>, ReplyError>(ReplyError::NotWaiting),
{
    if check.waiting {
        check.waiting = false;
        Ok(jobs)
    } else {
        Err(ReplyError::NotWaiting)
    }
}

} // verus!
