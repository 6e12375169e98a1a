use quilore::json::Json;
use quilore::record::RecordId;
use quilore::asset::{AssetType, DbAsset, RelAssetPath};
use quilore::handler::{Download, DownloadAction, DownloadEvent};
use quilore::platform::Platform;
use quilore::scheduler::{
    AfterSuccess, Handle, HandleError, Work,
    bump_retry, failure_extra, pause_scheduler, resume_scheduler, retries_remain, status_patch,
    Dispatch, Followup, Outcome, PauseFlag, Schedulable, Scheduler, Status, BACKOFF_SECS,
    DEFAULT_LIMIT, PAUSE_POLL_MILLIS, RETRY_CEILING,
};
use quilore::table::Table;
use quilore::task::{after_delete, DeleteStep, Task, TaskKind, DELETE_ATTEMPTS};

fn task(name: &str) -> Task {
    Task {
        id: RecordId::named(Table::Task, name),
        tar: RecordId::named(Table::Asset, name),
        kind: TaskKind::AssetDownload,
        payload: None,
        status: Status::Pending,
        result: None,
        error: None,
        retry_count: 0,
        started_at: None,
        finished_at: None,
    }
}

fn run(scheduler: &mut Scheduler<Task>, paused: bool) -> Task {
    match scheduler.poll(paused) {
        Dispatch::Run(item) => item,
        other => panic!("expected a dispatch, got {:?}", other),
    }
}

#[test]
fn retry_count_grows_by_one() {
    assert_eq!(bump_retry(0), 1);
    assert_eq!(bump_retry(4), 5);
    assert_eq!(bump_retry(u32::MAX), u32::MAX);
    assert!(retries_remain(4));
    assert!(!retries_remain(5));
}

#[test]
fn constants_are_the_documented_ones() {
    assert_eq!(RETRY_CEILING, 5);
    assert_eq!(BACKOFF_SECS, 5);
    assert_eq!(PAUSE_POLL_MILLIS, 200);
    assert_eq!(DEFAULT_LIMIT, 10);
    assert_eq!(DELETE_ATTEMPTS, 5);
}

#[test]
fn new_scheduler_is_empty() {
    let s: Scheduler<Task> = Scheduler::new();
    assert_eq!(s.queued(), 0);
    assert_eq!(s.in_flight(), 0);
    assert_eq!(s.limit(), 10);
    assert!(!s.is_closed());
}

#[test]
fn empty_scheduler_is_idle() {
    let mut s: Scheduler<Task> = Scheduler::new();
    assert!(matches!(s.poll(false), Dispatch::Idle));
    assert!(matches!(s.poll(true), Dispatch::Idle));
}

#[test]
fn items_are_dispatched_oldest_first_and_marked_running() {
    let mut s: Scheduler<Task> = Scheduler::new();
    s.enqueue(task("a"));
    s.enqueue(task("b"));
    let first = run(&mut s, false);
    assert!(first.id.same(&RecordId::named(Table::Task, "a")));
    assert_eq!(first.status, Status::Running);
    assert_eq!(first.retry_count, 0);
    let second = run(&mut s, false);
    assert!(second.id.same(&RecordId::named(Table::Task, "b")));
    assert_eq!(s.queued(), 0);
    assert_eq!(s.in_flight(), 2);
}

#[test]
fn start_queues_the_pending_items_in_order() {
    let mut s: Scheduler<Task> = Scheduler::new();
    s.start(vec![task("p1"), task("p2"), task("p3")]);
    assert_eq!(s.queued(), 3);
    assert!(run(&mut s, false).id.same(&RecordId::named(Table::Task, "p1")));
    assert!(run(&mut s, false).id.same(&RecordId::named(Table::Task, "p2")));
    assert!(run(&mut s, false).id.same(&RecordId::named(Table::Task, "p3")));
}

#[test]
fn closed_queue_drops_what_it_is_given() {
    let mut s: Scheduler<Task> = Scheduler::new();
    s.enqueue(task("kept"));
    s.close();
    assert!(s.is_closed());
    s.enqueue(task("dropped"));
    assert_eq!(s.queued(), 1);
}

#[test]
fn at_most_the_limit_is_in_flight() {
    let mut s: Scheduler<Task> = Scheduler::with_limit(2);
    s.enqueue(task("a"));
    s.enqueue(task("b"));
    s.enqueue(task("c"));
    let a = run(&mut s, false);
    let _b = run(&mut s, false);
    assert!(matches!(s.poll(false), Dispatch::Saturated));
    assert_eq!(s.queued(), 1);
    assert!(matches!(s.complete(a, Outcome::Succeeded), Followup::Succeeded(_)));
    assert_eq!(s.in_flight(), 1);
    let c = run(&mut s, false);
    assert!(c.id.same(&RecordId::named(Table::Task, "c")));
}

#[test]
fn default_limit_admits_ten() {
    let mut s: Scheduler<Task> = Scheduler::new();
    for i in 0..12 {
        s.enqueue(task(&format!("t{}", i)));
    }
    for _ in 0..10 {
        run(&mut s, false);
    }
    assert!(matches!(s.poll(false), Dispatch::Saturated));
    assert_eq!(s.in_flight(), 10);
    assert_eq!(s.queued(), 2);
}

#[test]
fn an_item_is_in_flight_once_between_enqueue_and_outcome() {
    let mut s: Scheduler<Task> = Scheduler::new();
    let id = RecordId::named(Table::Task, "only");
    s.enqueue(task("only"));
    assert!(!s.is_in_flight(&id));
    let item = run(&mut s, false);
    assert!(s.is_in_flight(&id));
    assert_eq!(s.in_flight(), 1);
    assert!(matches!(s.poll(false), Dispatch::Idle));
    // a failure below the ceiling keeps the slot through the backoff
    let failed = match s.complete(item, Outcome::Failed("boom".to_string())) {
        Followup::Retry { item, error } => {
            assert_eq!(error, "boom");
            item
        }
        other => panic!("expected a retry, got {:?}", other),
    };
    assert!(s.is_in_flight(&id));
    assert_eq!(s.queued(), 0);
    s.requeue(failed);
    assert!(!s.is_in_flight(&id));
    assert_eq!(s.queued(), 1);
    let again = run(&mut s, false);
    assert_eq!(s.in_flight(), 1);
    assert!(matches!(s.complete(again, Outcome::Succeeded), Followup::Succeeded(_)));
    assert_eq!(s.in_flight(), 0);
    assert_eq!(s.queued(), 0);
}

#[test]
fn a_failing_item_is_abandoned_at_the_ceiling() {
    let mut s: Scheduler<Task> = Scheduler::new();
    s.enqueue(task("flaky"));
    let mut attempts = 0;
    loop {
        let item = run(&mut s, false);
        attempts += 1;
        assert_eq!(item.retry_count, attempts - 1);
        match s.complete(item, Outcome::Failed("down".to_string())) {
            Followup::Retry { item, .. } => {
                assert_eq!(item.status, Status::Failed);
                assert_eq!(item.retry_count, attempts);
                assert!(item.retry_count < RETRY_CEILING);
                s.requeue(item);
            }
            Followup::Abandoned { item, error } => {
                assert_eq!(item.status, Status::Failed);
                assert_eq!(item.retry_count, 5);
                assert!(item.retry_count <= RETRY_CEILING + 1);
                assert_eq!(error, "down");
                break;
            }
            Followup::Succeeded(_) => panic!("a failure is no success"),
        }
    }
    assert_eq!(attempts, 5);
    assert_eq!(s.in_flight(), 0);
    assert_eq!(s.queued(), 0);
}

#[test]
fn an_item_loaded_at_the_ceiling_is_abandoned_at_once() {
    let mut s: Scheduler<Task> = Scheduler::new();
    let mut t = task("old");
    t.retry_count = 5;
    s.enqueue(t);
    let item = run(&mut s, false);
    match s.complete(item, Outcome::Failed("x".to_string())) {
        Followup::Abandoned { item, .. } => assert_eq!(item.retry_count, 6),
        other => panic!("expected abandonment, got {:?}", other),
    }
}

#[test]
fn pause_blocks_dispatch_until_resume() {
    let mut flag = PauseFlag::new();
    let mut s: Scheduler<Task> = Scheduler::new();
    s.enqueue(task("running"));
    let in_flight = run(&mut s, flag.is_paused());
    assert!(pause_scheduler(&mut flag).paused);
    assert!(flag.is_paused());
    for i in 0..10 {
        s.enqueue(task(&format!("new{}", i)));
    }
    for _ in 0..20 {
        assert!(matches!(s.poll(flag.is_paused()), Dispatch::Paused));
    }
    assert_eq!(s.queued(), 10);
    assert_eq!(s.in_flight(), 1);
    // what is in flight still completes
    assert!(matches!(s.complete(in_flight, Outcome::Succeeded), Followup::Succeeded(_)));
    assert_eq!(s.in_flight(), 0);
    assert!(matches!(s.poll(flag.is_paused()), Dispatch::Paused));
    assert!(!resume_scheduler(&mut flag).paused);
    assert!(!flag.is_paused());
    let next = run(&mut s, flag.is_paused());
    assert!(next.id.same(&RecordId::named(Table::Task, "new0")));
    assert_eq!(s.queued(), 9);
}

#[test]
fn status_has_its_names() {
    assert_eq!(Status::Pending.as_str(), "Pending");
    assert_eq!(Status::Running.as_str(), "Running");
    assert_eq!(Status::Succeeded.as_str(), "Succeeded");
    assert_eq!(Status::Failed.as_str(), "Failed");
}

#[test]
fn status_patch_lays_the_extra_over_the_status() {
    let patch = status_patch(Status::Running, None);
    assert_eq!(patch.to_text(), r#"{"status":"Running"}"#);
    let patch = status_patch(Status::Failed, Some(failure_extra("timeout", 3)));
    assert_eq!(patch.get("status").and_then(|j| j.as_str()), Some("Failed"));
    assert_eq!(patch.get("error").and_then(|j| j.as_str()), Some("timeout"));
    assert_eq!(patch.get("retry_count").and_then(|j| j.as_u64()), Some(3));
    // an extra member named status replaces the status
    let extra = Json::parse(r#"{"status":"Succeeded","finished_at":7}"#).unwrap();
    let patch = status_patch(Status::Failed, Some(extra));
    assert_eq!(patch.get("status").and_then(|j| j.as_str()), Some("Succeeded"));
    assert_eq!(patch.get("finished_at").and_then(|j| j.as_u64()), Some(7));
}

#[test]
fn task_is_schedulable() {
    let t = task("x");
    assert!(t.id().same(&RecordId::named(Table::Task, "x")));
    assert_eq!(t.status(), Status::Pending);
    assert_eq!(t.retry_count(), 0);
    let t = t.with_progress(Status::Failed, 2);
    assert_eq!(t.status(), Status::Failed);
    assert_eq!(t.retry_count(), 2);
    assert!(t.id().same(&RecordId::named(Table::Task, "x")));
    assert_eq!(t.handle(), Work::AssetDownload);
    let patch = t.update_status(Status::Running, None);
    assert_eq!(patch.to_text(), r#"{"status":"Running"}"#);
    assert_eq!(t.on_success(None), AfterSuccess::Delete { notify: false });
}

#[test]
fn deleting_a_task_is_tried_five_times() {
    assert_eq!(after_delete(1, true), DeleteStep::Done);
    assert_eq!(after_delete(1, false), DeleteStep::Again);
    assert_eq!(after_delete(4, false), DeleteStep::Again);
    assert_eq!(after_delete(5, false), DeleteStep::GiveUp);
    assert_eq!(after_delete(5, true), DeleteStep::Done);
}

#[test]
fn a_gone_asset_ends_with_the_task_deleted_and_one_event() {
    let mut s: Scheduler<Task> = Scheduler::new();
    s.enqueue(task("media-a.jpg"));
    let item = run(&mut s, false);
    // the handler meets HTTP 404
    let mut download = Download::begin(DbAsset {
        id: RecordId::named(Table::Asset, "media-a.jpg"),
        ty: AssetType::Media,
        plat: Platform::Twitter,
        url: "https://pbs.twimg.com/media/a.jpg".to_string(),
        name: "a.jpg".to_string(),
        path: RelAssetPath("media/a.jpg".to_string()),
        downloaded: false,
        available: false,
    });
    let mut events = Vec::new();
    let mut action = download.step(DownloadEvent::Found(false));
    let mut reports = vec![DownloadEvent::Saved(true), DownloadEvent::Response(404)];
    let outcome = loop {
        match action {
            DownloadAction::Done => break Outcome::Succeeded,
            DownloadAction::Fail(e) => break Outcome::Failed(format!("{:?}", e)),
            DownloadAction::Persist { announce } => {
                if announce {
                    events.push(download.completion());
                }
            }
            _ => {}
        }
        action = download.step(reports.pop().unwrap());
    };
    assert!(matches!(outcome, Outcome::Succeeded));
    let asset = download.into_asset();
    assert!(asset.downloaded && !asset.available);
    assert_eq!(events.len(), 1);
    assert!(!events[0].available);
    // the task has succeeded: it is deleted and not tried again
    match s.complete(item, outcome) {
        Followup::Succeeded(done) => {
            assert_eq!(done.on_success(None), AfterSuccess::Delete { notify: false });
            assert!(done.id().same(&RecordId::named(Table::Task, "media-a.jpg")));
        }
        other => panic!("expected success, got {:?}", other),
    }
    assert_eq!(s.in_flight(), 0);
    assert_eq!(s.queued(), 0);
}

#[test]
fn a_handle_takes_its_value_once() {
    let mut h: Handle<u8> = Handle::new();
    assert_eq!(h.get(), Err(HandleError::NotInitialised));
    assert!(h.init(1));
    assert!(!h.init(2));
    assert_eq!(h.get(), Ok(&1));
}

#[test]
fn a_scheduler_is_set_up_once_with_the_pending_items() {
    let mut handle: Handle<Scheduler<Task>> = Handle::new();
    assert!(Scheduler::get(&handle).is_err());
    assert!(Scheduler::init(&mut handle, vec![task("a"), task("b")]));
    assert_eq!(Scheduler::get(&handle).map(|s| s.queued()).ok(), Some(2));
    assert!(!Scheduler::init(&mut handle, vec![task("c")]));
    assert_eq!(Scheduler::get(&handle).map(|s| s.queued()).ok(), Some(2));
}
