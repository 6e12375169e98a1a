use quilore::asset::{AssetType, DbAsset, RelAssetPath};
use quilore::handler::{
    is_gone, is_success, plan_transport, transport_target, Download, DownloadAction, DownloadError,
    DownloadEvent, Transport,
};
use quilore::platform::Platform;
use quilore::record::RecordId;
use quilore::table::Table;

fn asset(downloaded: bool, available: bool) -> DbAsset {
    DbAsset {
        id: RecordId::named(Table::Asset, "media-a.jpg"),
        ty: AssetType::Media,
        plat: Platform::Twitter,
        url: "https://pbs.twimg.com/media/a.jpg".to_string(),
        name: "a.jpg".to_string(),
        path: RelAssetPath("media/a.jpg".to_string()),
        downloaded,
        available,
    }
}

#[test]
fn gone_resource_is_a_final_outcome_with_one_event() {
    // HTTP 404: no error, downloaded and unavailable, one completion event
    let mut d = Download::begin(asset(false, false));
    assert_eq!(d.step(DownloadEvent::Found(false)), DownloadAction::Fetch);
    let mut events = Vec::new();
    let action = d.step(DownloadEvent::Response(404));
    assert_eq!(action, DownloadAction::Persist { announce: true });
    if let DownloadAction::Persist { announce: true } = action {
        events.push(d.completion());
    }
    assert!(d.asset().downloaded);
    assert!(!d.asset().available);
    assert_eq!(d.step(DownloadEvent::Saved(true)), DownloadAction::Done);
    assert!(d.is_done());
    assert_eq!(events.len(), 1);
    assert_eq!(events[0].aid, "a.jpg");
    assert!(!events[0].available);
    let record = d.into_asset();
    assert!(record.downloaded && !record.available);
    assert_eq!(record.url, "https://pbs.twimg.com/media/a.jpg");
}

#[test]
fn every_gone_status_is_final() {
    for code in [404u16, 403, 401, 307] {
        assert!(is_gone(code));
        let mut d = Download::begin(asset(false, true));
        d.step(DownloadEvent::Found(false));
        assert_eq!(d.step(DownloadEvent::Response(code)), DownloadAction::Persist { announce: true });
        assert!(d.asset().downloaded && !d.asset().available);
    }
    assert!(!is_gone(500));
    assert!(!is_gone(200));
}

#[test]
fn success_is_any_status_from_200_to_299() {
    assert!(is_success(200));
    assert!(is_success(206));
    assert!(is_success(299));
    assert!(!is_success(199));
    assert!(!is_success(300));
    assert!(!is_success(404));
}

#[test]
fn complete_download_is_promoted_then_announced() {
    let mut d = Download::begin(asset(false, false));
    assert_eq!(d.step(DownloadEvent::Found(false)), DownloadAction::Fetch);
    assert_eq!(d.step(DownloadEvent::Response(200)), DownloadAction::Stream);
    assert_eq!(d.step(DownloadEvent::Streamed(true)), DownloadAction::Promote);
    assert!(!d.asset().downloaded);
    assert_eq!(d.step(DownloadEvent::Promoted(true)), DownloadAction::Persist { announce: true });
    assert!(d.asset().downloaded && d.asset().available);
    assert!(d.completion().available);
    assert_eq!(d.step(DownloadEvent::Saved(true)), DownloadAction::Done);
}

#[test]
fn interrupted_download_never_touches_the_target_and_is_retried() {
    let mut d = Download::begin(asset(false, false));
    let mut actions = vec![
        d.step(DownloadEvent::Found(false)),
        d.step(DownloadEvent::Response(200)),
        d.step(DownloadEvent::Streamed(false)),
    ];
    assert!(!d.asset().downloaded && !d.asset().available);
    actions.push(d.step(DownloadEvent::Saved(true)));
    assert_eq!(
        actions,
        vec![
            DownloadAction::Fetch,
            DownloadAction::Stream,
            DownloadAction::Persist { announce: false },
            DownloadAction::Fail(DownloadError::Interrupted),
        ]
    );
    assert!(!actions.contains(&DownloadAction::Promote));
    // the retry starts from the beginning and ends like an uninterrupted download
    let mut retry = Download::begin(d.into_asset());
    assert_eq!(retry.step(DownloadEvent::Found(false)), DownloadAction::Fetch);
    assert_eq!(retry.step(DownloadEvent::Response(200)), DownloadAction::Stream);
    assert_eq!(retry.step(DownloadEvent::Streamed(true)), DownloadAction::Promote);
    assert_eq!(retry.step(DownloadEvent::Promoted(true)), DownloadAction::Persist { announce: true });
    assert_eq!(retry.step(DownloadEvent::Saved(true)), DownloadAction::Done);
    assert!(retry.asset().downloaded && retry.asset().available);
}

#[test]
fn other_statuses_are_transient() {
    let mut d = Download::begin(asset(false, true));
    d.step(DownloadEvent::Found(false));
    assert_eq!(d.step(DownloadEvent::Response(500)), DownloadAction::Persist { announce: false });
    assert!(!d.asset().downloaded && !d.asset().available);
    assert_eq!(d.step(DownloadEvent::Saved(true)), DownloadAction::Fail(DownloadError::Status(500)));
}

#[test]
fn a_request_that_cannot_be_sent_is_transient() {
    let mut d = Download::begin(asset(false, false));
    d.step(DownloadEvent::Found(false));
    assert_eq!(d.step(DownloadEvent::SendFailed), DownloadAction::Persist { announce: false });
    assert_eq!(d.step(DownloadEvent::Saved(true)), DownloadAction::Fail(DownloadError::Transport));
}

#[test]
fn a_failed_rename_is_transient() {
    let mut d = Download::begin(asset(false, false));
    d.step(DownloadEvent::Found(false));
    d.step(DownloadEvent::Response(200));
    d.step(DownloadEvent::Streamed(true));
    assert_eq!(d.step(DownloadEvent::Promoted(false)), DownloadAction::Persist { announce: false });
    assert_eq!(d.step(DownloadEvent::Saved(true)), DownloadAction::Fail(DownloadError::Rename));
}

#[test]
fn existing_file_is_reconciled_without_a_fetch() {
    let mut d = Download::begin(asset(false, false));
    assert_eq!(d.step(DownloadEvent::Found(true)), DownloadAction::Persist { announce: true });
    assert!(d.asset().downloaded && d.asset().available);
    assert_eq!(d.step(DownloadEvent::Saved(true)), DownloadAction::Done);

    let mut d = Download::begin(asset(true, true));
    assert_eq!(d.step(DownloadEvent::Found(true)), DownloadAction::Done);
    assert!(d.is_done());
}

#[test]
fn a_final_outcome_is_not_fetched_again() {
    // confirmed gone earlier: downloaded and unavailable, no file
    let mut d = Download::begin(asset(true, false));
    assert_eq!(d.step(DownloadEvent::Found(false)), DownloadAction::Done);
    assert!(d.is_done());
    assert!(d.asset().downloaded && !d.asset().available);
    // the file came back: the record is reconciled
    let mut d = Download::begin(asset(true, false));
    assert_eq!(d.step(DownloadEvent::Found(true)), DownloadAction::Persist { announce: true });
    assert!(d.asset().available);
}

#[test]
fn a_record_that_cannot_be_saved_fails_the_task() {
    let mut d = Download::begin(asset(false, false));
    d.step(DownloadEvent::Found(true));
    assert_eq!(d.step(DownloadEvent::Saved(false)), DownloadAction::Fail(DownloadError::Store));
}

#[test]
fn reports_out_of_turn_fail_the_task() {
    let mut d = Download::begin(asset(false, false));
    assert_eq!(d.step(DownloadEvent::Streamed(true)), DownloadAction::Fail(DownloadError::Protocol));
    assert!(d.is_done());
    assert_eq!(d.step(DownloadEvent::Found(true)), DownloadAction::Fail(DownloadError::Protocol));
}

#[test]
fn transport_is_planned_from_path_and_target() {
    let target = transport_target("/save", "media", "a.jpg");
    assert_eq!(target, "/save/media/a.jpg");
    assert_eq!(plan_transport("/old/a.jpg", &target, false), Transport::Copy);
    assert_eq!(plan_transport("/old/a.jpg", &target, true), Transport::Adopt);
    assert_eq!(plan_transport("/save/media/a.jpg", &target, false), Transport::Keep);
    assert_eq!(plan_transport("media unavailable", &target, true), Transport::Keep);
    assert_eq!(plan_transport("x/media unavailable/y", &target, false), Transport::Keep);
}
