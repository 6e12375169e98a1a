use vstd::prelude::*;
use crate::api_models::ScanLikesEvent;
use crate::credentials::AuthCredential;
use crate::cursored_data::{ingested, numbered, IngestError};
use crate::entities::DbEntitie;
use crate::handler::{is_success, success};
use crate::ingest::CursoredData;
use crate::job::{end_flag, end_signal, HandleSignal, Job, Mission};
use crate::json::{
    json_view, lemma_object_view, member_views, text_in, text_of, unsigned_in, unsigned_of, Json,
    JsonNumber, JsonView,
};
use crate::like::{LikedPost, LikedPostView};
use crate::meta::GlobalVal;
use crate::record::{id_views, RecordId, RecordIdView, RecordKeyView};
use crate::requests::{likes, likes_variables, Payload};
use crate::scheduler::Status;
use crate::table::Table;
use crate::task::{Task, TaskKind};
use crate::text::{replace, replaced};

verus! {

/// Why one step of a scan of the likes failed.
#[derive(Debug, Clone, Copy, PartialEq, Eq, Structural)]
pub enum ScanError {
    /// The credential holds no cookie.
    NoCookie,
    /// The cookie names no user.
    NoTwid,
    /// The platform answered with this status.
    Status(u16),
    /// The page could not be ingested.
    Ingest(IngestError),
    /// No save directory is configured.
    NoSaveDir,
}

/// How far a scan has come, as its job records it.
#[derive(Debug)]
pub struct ScanProgress {
    /// The cursor of the page to fetch; none for the first page.
    pub cursor: Option<String>,
    /// The last sort index that was given; none before the first.
    pub last_sortidx: Option<u32>,
    /// How many posts were ingested.
    pub count: u32,
}

/// The record of the job that scans the likes.
pub open spec fn scan_job_record() -> RecordIdView {
    RecordIdView { table: Table::Status, key: RecordKeyView::Text(Mission::ScanLikes.name()) }
}

/// The job that a request to scan the likes creates: pending, at the first
/// page.
pub fn scan_likes_timeline() -> (job: Job)
    ensures
        job.id@ == scan_job_record(),
        job.mission == Mission::ScanLikes,
        job.status == Status::Pending,
        job.params@ == JsonView::Object(seq![("cursor"@, JsonView::Null)]),
        job.end_band@.len() == 0,
        job.error is None,
        job.retry_count == 0,
        job.max_retry_count == 3,
        job.started_at is None,
        job.finished_at is None,
{
    let mut members: Vec<(String, Json)> = Vec::new();
    members.push((String::from_str("cursor"), Json::Null));
    proof {
        lemma_object_view(members);
        assert(member_views(members@) =~= seq![("cursor"@, JsonView::Null)]);
    }
    Job {
        id: RecordId::named(Table::Status, Mission::ScanLikes.as_str()),
        mission: Mission::ScanLikes,
        status: Status::Pending,
        params: Json::Object(members),
        end_band: Vec::new(),
        error: None,
        retry_count: 0,
        max_retry_count: 3,
        started_at: None,
        finished_at: None,
    }
}

impl ScanProgress {
    /// Reads the progress from the parameters of the job. What is missing
    /// or of another kind counts as not there; a count that is not there is
    /// zero. Numbers are cut to 32 bits.
    pub fn from_params(params: &Json) -> (p: ScanProgress)
        ensures
            p.cursor.deep_view() == text_of(params.field("cursor"@)),
            p.last_sortidx == match unsigned_of(params.field("last_sortidx"@)) {
                Some(n) => Some(n as u32),
                None => None,
            },
            p.count == match unsigned_of(params.field("count"@)) {
                Some(n) => n as u32,
                None => 0u32,
            },
    {
        ScanProgress {
            cursor: match text_in(params.get("cursor")) {
                Some(c) => Some(String::from_str(c)),
                None => None,
            },
            last_sortidx: match unsigned_in(params.get("last_sortidx")) {
                Some(n) => Some(#[verifier::truncate] (n as u32)),
                None => None,
            },
            count: match unsigned_in(params.get("count")) {
                Some(n) => #[verifier::truncate] (n as u32),
                None => 0,
            },
        }
    }

    /// The count after `more` posts were ingested; it stops at the largest
    /// number that 32 bits hold.
    pub open spec fn counted(self, more: nat) -> u32 {
        if self.count + more <= u32::MAX {
            (self.count + more) as u32
        } else {
            u32::MAX
        }
    }

    /// The last sort index after the posts `list` were given theirs: that of
    /// the last of them, or the one before where there are none.
    pub open spec fn last_given(self, list: Seq<LikedPost>) -> Option<u32> {
        if list.len() > 0 {
            Some(list.last().sortidx)
        } else {
            self.last_sortidx
        }
    }
}

/// The number that a value holds, or `null`.
pub open spec fn number_or_null(n: Option<u32>) -> JsonView {
    match n {
        Some(v) => JsonView::Number(JsonNumber::Unsigned(v as u64)),
        None => JsonView::Null,
    }
}

/// The user that the credential's cookie names: the cookie `twid` without
/// its encoded prefix.
pub open spec fn user_of(credential: AuthCredential) -> Result<Seq<char>, ScanError> {
    match credential.cookie {
        Some(cookie) => match cookie.twid {
            Some(twid) => Ok(replaced(twid@, "u%3D"@, ""@)),
            None => Err(ScanError::NoTwid),
        },
        None => Err(ScanError::NoCookie),
    }
}

/// The user whose likes are scanned.
pub fn scan_user(credential: &AuthCredential) -> (r: Result<String, ScanError>)
    ensures
        match r {
            Ok(id) => user_of(*credential) == Ok::<Seq<char>, ScanError>(id@),
            Err(e) => user_of(*credential) == Err::<Seq<char>, ScanError>(e),
        },
{
    match &credential.cookie {
        Some(cookie) => match &cookie.twid {
            Some(twid) => Ok(replace(twid.as_str(), "u%3D", "")),
            None => Err(ScanError::NoTwid),
        },
        None => Err(ScanError::NoCookie),
    }
}

/// The request for the page at which the scan stands.
pub fn scan_request(progress: &ScanProgress, credential: &AuthCredential) -> (r: Result<
    Payload,
    ScanError,
>)
    ensures
        match r {
            Ok(p) => {
                &&& user_of(*credential) is Ok
                &&& p.method == crate::requests::Method::Get
                &&& p.url@ == crate::requests::likes_address()
                &&& p.params.features@ == crate::json::rendered(
                    JsonView::Object(crate::requests::likes_features()),
                )
                &&& p.params.variables@ == crate::json::rendered(
                    JsonView::Object(
                        likes_variables(user_of(*credential)->Ok_0, None, progress.cursor.deep_view()),
                    ),
                )
                &&& p.params.field_toggles.deep_view() == Some(
                    crate::json::rendered(JsonView::Object(crate::requests::likes_field_toggles())),
                )
            },
            Err(e) => user_of(*credential) == Err::<Seq<char>, ScanError>(e),
        },
{
    let user = match scan_user(credential) {
        Ok(u) => u,
        Err(e) => {
            return Err(e);
        },
    };
    let cursor = match &progress.cursor {
        Some(c) => Some(c.clone()),
        None => None,
    };
    Ok(likes(user, None, cursor))
}

/// Whether the platform's answer can be read: any status but a success
/// fails the step.
pub fn check_answer(status: u16) -> (r: Result<(), ScanError>)
    ensures
        r == if success(status) {
            Ok::<(), ScanError>(())
        } else {
            Err::<(), ScanError>(ScanError::Status(status))
        },
{
    if is_success(status) {
        Ok(())
    } else {
        Err(ScanError::Status(status))
    }
}

/// Ingests the page that the platform answered with: the posts that are
/// not among `exist`, numbered below the last sort index of the scan.
pub fn digest_page(
    body: &Json,
    progress: &ScanProgress,
    exist: &Vec<RecordId>,
    globals: &GlobalVal,
) -> (r: Result<CursoredData<LikedPost>, ScanError>)
    ensures
        exists|ceiling: int|
            {
                &&& 0 <= ceiling <= 0x1_0000_0000
                &&& progress.last_sortidx is Some ==> ceiling == progress.last_sortidx->0
                &&& match r {
                    Ok(data) => #[trigger] ingested(
                        *body,
                        ceiling,
                        id_views(exist@),
                        globals.save_dir.deep_view(),
                    ) == Ok::<(Seq<LikedPostView>, Seq<char>, bool), IngestError>(
                        (data.list.deep_view(), data.next@, data.is_end),
                    ),
                    Err(e) => e is Ingest && ingested(
                        *body,
                        ceiling,
                        id_views(exist@),
                        globals.save_dir.deep_view(),
                    ) == Err::<(Seq<LikedPostView>, Seq<char>, bool), IngestError>(e->Ingest_0),
                }
            },
{
    match CursoredData::<LikedPost>::from_response(body, progress.last_sortidx, exist, globals) {
        Ok(data) => Ok(data),
        Err(e) => Err(ScanError::Ingest(e)),
    }
}

/// The tasks that are queued after a page was persisted: those that have
/// not succeeded already, in their order.
pub open spec fn runnable(tasks: Seq<Task>) -> Seq<Task>
    decreases tasks.len(),
{
    if tasks.len() == 0 {
        Seq::empty()
    } else if tasks.last().status == Status::Succeeded {
        runnable(tasks.drop_last())
    } else {
        runnable(tasks.drop_last()).push(tasks.last())
    }
}

pub fn tasks_to_run(checked: Vec<Task>) -> (r: Vec<Task>)
    ensures
        r@ == runnable(checked@),
{
    let ghost all = checked@;
    let mut rest = crate::seqs::reversed(checked);
    let mut out: Vec<Task> = Vec::new();
    assert(all.subrange(0, 0) =~= Seq::empty());
    while rest.len() > 0
        invariant
            rest@.len() <= all.len(),
            forall|j: int| 0 <= j < rest@.len() ==> rest@[j] == all[all.len() - 1 - j],
            out@ == runnable(all.subrange(0, all.len() - rest@.len())),
        decreases rest@.len(),
    {
        let ghost done = all.len() - rest@.len();
        let task = rest.pop().unwrap();
        assert(task == all[done]);
        assert(all.subrange(0, done + 1).drop_last() =~= all.subrange(0, done));
        assert(all.subrange(0, done + 1).last() == task);
        match task.status {
            Status::Succeeded => {},
            _ => {
                out.push(task);
            },
        }
    }
    assert(all.subrange(0, all.len() as int) =~= all);
    out
}

/// What a step of the scan ends with.
#[derive(Debug)]
pub struct ScanStep {
    /// The new parameters of the job.
    pub params: Json,
    /// What the interface is told.
    pub event: ScanLikesEvent,
    /// What the job's success logic is handed.
    pub signal: HandleSignal,
}

/// The parameters of the job after the page `batch`.
pub open spec fn params_after(progress: ScanProgress, batch: CursoredData<LikedPost>) -> Seq<
    (Seq<char>, JsonView),
> {
    seq![
        ("cursor"@, JsonView::Str(batch.next@)),
        ("count"@, JsonView::Number(JsonNumber::Unsigned(progress.counted(batch.list@.len()) as u64))),
        ("is_end"@, JsonView::Bool(batch.is_end)),
        ("last_sortidx"@, number_or_null(progress.last_given(batch.list@))),
    ]
}

/// Ends a step of the scan: the job's new parameters hold the cursor of the
/// next page, the count, the end flag and the last sort index; the
/// interface is told the count and whether the scan goes on; the signal
/// carries the end flag.
pub fn conclude(progress: &ScanProgress, batch: &CursoredData<LikedPost>) -> (step: ScanStep)
    ensures
        step.params@ == JsonView::Object(params_after(*progress, *batch)),
        step.event == (ScanLikesEvent {
            count: progress.counted(batch.list@.len()),
            running: !batch.is_end,
        }),
        end_flag(Some(step.signal)) == Some(batch.is_end),
{
    let more = batch.list.len();
    let count: u32 = if more <= 0xffff_ffffusize && more as u64 + progress.count as u64
        <= 0xffff_ffffu64 {
        (more as u64 + progress.count as u64) as u32
    } else {
        0xffff_ffffu32
    };
    let last = if batch.list.len() > 0 {
        Some(batch.list[batch.list.len() - 1].sortidx)
    } else {
        progress.last_sortidx
    };
    let last_value = match last {
        Some(v) => Json::number(v as u64),
        None => Json::Null,
    };
    let cursor = Json::Str(batch.next.clone());
    assert(json_view(cursor) == JsonView::Str(batch.next@));
    assert(json_view(last_value) == number_or_null(last));
    assert(json_view(Json::Bool(batch.is_end)) == JsonView::Bool(batch.is_end));
    assert(json_view(Json::Number(JsonNumber::Unsigned(count as u64))) == JsonView::Number(
        JsonNumber::Unsigned(count as u64),
    ));
    let mut members: Vec<(String, Json)> = Vec::new();
    members.push((String::from_str("cursor"), cursor));
    members.push((String::from_str("count"), Json::number(count as u64)));
    members.push((String::from_str("is_end"), Json::Bool(batch.is_end)));
    members.push((String::from_str("last_sortidx"), last_value));
    proof {
        lemma_object_view(members);
        assert(member_views(members@) =~= params_after(*progress, *batch));
    }
    ScanStep {
        params: Json::Object(members),
        event: ScanLikesEvent { count, running: !batch.is_end },
        signal: end_signal(batch.is_end),
    }
}

/// The records of the posts of a page, and the tasks that download their
/// assets: those of each post, joined in page order.
pub fn page_entities(list: &Vec<LikedPost>, globals: &GlobalVal) -> (r: Result<DbEntitie, ScanError>)
    ensures
        match r {
            Ok(e) => globals.save_dir is Some && exists|parts: Seq<DbEntitie>|
                {
                    &&& parts.len() == list@.len()
                    &&& #[trigger] crate::entities::gathered(parts) == e.lists()
                    &&& forall|k: int|
                        0 <= k < parts.len() ==> (#[trigger] parts[k]).stands_for(
                            list@[k].deep_view(),
                            TaskKind::AssetDownload,
                            globals.save_dir->0@,
                        )
                },
            Err(e) => globals.save_dir is None && e == ScanError::NoSaveDir,
        },
{
    if globals.save_dir.is_none() {
        return Err(ScanError::NoSaveDir);
    }
    let mut parts: Vec<DbEntitie> = Vec::new();
    let mut i: usize = 0;
    while i < list.len()
        invariant
            i <= list.len(),
            globals.save_dir is Some,
            parts@.len() == i,
            forall|k: int|
                0 <= k < i ==> (#[trigger] parts@[k]).stands_for(
                    list@[k].deep_view(),
                    TaskKind::AssetDownload,
                    globals.save_dir->0@,
                ),
        decreases list.len() - i,
    {
        parts.push(list[i].clone().into_entities(TaskKind::AssetDownload, globals));
        i += 1;
    }
    let ghost all = parts@;
    let e = DbEntitie::merge_all(parts);
    assert(crate::entities::gathered(all) == e.lists());
    Ok(e)
}

} // verus!
