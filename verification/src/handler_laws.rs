use vstd::prelude::*;
use crate::handler::{gone, success, DownloadAction, DownloadError, DownloadEvent, DownloadView, Stage};

verus! {

/// A download that has just begun, of an asset with these flags.
pub open spec fn begun(downloaded: bool, available: bool) -> DownloadView {
    DownloadView { stage: Stage::Probing, downloaded, available }
}

/// The download after the runtime reported `events`, in order.
pub open spec fn state_after(start: DownloadView, events: Seq<DownloadEvent>) -> DownloadView
    decreases events.len(),
{
    if events.len() == 0 {
        start
    } else {
        state_after(start, events.drop_last()).step(events.last()).0
    }
}

/// What the runtime is told to do in answer to the report `events[k]`.
pub open spec fn action_at(start: DownloadView, events: Seq<DownloadEvent>, k: int) -> DownloadAction
    recommends
        0 <= k < events.len(),
{
    state_after(start, events.subrange(0, k)).step(events[k]).1
}

proof fn lemma_streaming_follows_stream(start: DownloadView, events: Seq<DownloadEvent>, k: int)
    requires
        0 <= k <= events.len(),
        !(start.stage is Streaming),
        state_after(start, events.subrange(0, k)).stage is Streaming,
    ensures
        k >= 1,
        action_at(start, events, k - 1) == DownloadAction::Stream,
        events[k - 1] is Response,
        success(events[k - 1]->Response_0),
{
    let prefix = events.subrange(0, k);
    if k >= 1 {
        assert(prefix.drop_last() =~= events.subrange(0, k - 1));
        assert(prefix.last() == events[k - 1]);
    }
}

/// Atomic materialisation: the temporary file replaces the target only in
/// answer to the report that the whole body was written and flushed, and
/// that body is the one of a request that was answered with a success. An
/// interrupted download never touches the target.
pub proof fn law_promote_only_after_complete_body(
    downloaded: bool,
    available: bool,
    events: Seq<DownloadEvent>,
    k: int,
)
    requires
        0 <= k < events.len(),
        action_at(begun(downloaded, available), events, k) == DownloadAction::Promote,
    ensures
        events[k] == DownloadEvent::Streamed(true),
        k >= 2,
        action_at(begun(downloaded, available), events, k - 1) == DownloadAction::Stream,
        events[k - 1] is Response && success(events[k - 1]->Response_0),
{
    let start = begun(downloaded, available);
    lemma_streaming_follows_stream(start, events, k);
    let before = state_after(start, events.subrange(0, k - 1));
    assert(before.stage is Fetching);
    if k == 1 {
        assert(events.subrange(0, 0).len() == 0);
    }
}

/// A body that broke off leaves the asset unavailable and not newly marked
/// as downloaded; its record is updated without a completion event, the
/// task then fails, and the next execution starts from the beginning.
pub proof fn law_interruption_is_transient(v: DownloadView, saved: bool)
    requires
        v.stage is Streaming,
    ensures
        ({
            let (broken, first) = v.step(DownloadEvent::Streamed(false));
            let (ended, second) = broken.step(DownloadEvent::Saved(saved));
            &&& first == DownloadAction::Persist { announce: false }
            &&& !broken.available
            &&& broken.downloaded == v.downloaded
            &&& second is Fail
            &&& saved ==> second == DownloadAction::Fail(DownloadError::Interrupted)
            &&& ended.stage is Done
        }),
{
}

/// A resource that is gone is a final, expected outcome: the asset is
/// marked as downloaded and unavailable, its record is updated with a
/// completion event, and the task succeeds, so that it is not tried again.
pub proof fn law_gone_is_final(available: bool, code: u16)
    requires
        gone(code),
    ensures
        ({
            let events = seq![
                DownloadEvent::Found(false),
                DownloadEvent::Response(code),
                DownloadEvent::Saved(true),
            ];
            let start = begun(false, available);
            &&& action_at(start, events, 0) == DownloadAction::Fetch
            &&& action_at(start, events, 1) == DownloadAction::Persist { announce: true }
            &&& action_at(start, events, 2) == DownloadAction::Done
            &&& state_after(start, events).downloaded
            &&& !state_after(start, events).available
            &&& state_after(start, events).stage is Done
        }),
{
    let events = seq![
        DownloadEvent::Found(false),
        DownloadEvent::Response(code),
        DownloadEvent::Saved(true),
    ];
    let start = begun(false, available);
    lemma_unfold_three(start, events);
}

proof fn lemma_unfold_three(start: DownloadView, events: Seq<DownloadEvent>)
    requires
        events.len() == 3,
    ensures
        state_after(start, events.subrange(0, 0)) == start,
        state_after(start, events.subrange(0, 1)) == start.step(events[0]).0,
        state_after(start, events.subrange(0, 2)) == start.step(events[0]).0.step(events[1]).0,
        state_after(start, events) == start.step(events[0]).0.step(events[1]).0.step(events[2]).0,
{
    let none = events.subrange(0, 0);
    let one = events.subrange(0, 1);
    let two = events.subrange(0, 2);
    assert(one.drop_last() =~= none);
    assert(two.drop_last() =~= one);
    assert(events.drop_last() =~= two);
    assert(state_after(start, none) == start);
    assert(state_after(start, one) == state_after(start, none).step(one.last()).0);
    assert(state_after(start, two) == state_after(start, one).step(two.last()).0);
}

/// A completion event is buffered only with a final outcome: the asset is
/// then marked as downloaded, and it is available exactly if its file was
/// found or moved into place.
pub proof fn law_completion_means_final(v: DownloadView, event: DownloadEvent)
    requires
        v.step(event).1 == (DownloadAction::Persist { announce: true }),
    ensures
        v.step(event).0.downloaded,
        v.step(event).0.available <==> (event == DownloadEvent::Found(true) || event
            == DownloadEvent::Promoted(true)),
        !v.step(event).0.available <==> (event is Response && gone(event->Response_0)),
{
}

/// A final outcome is not tried again: whatever the runtime reports of an
/// asset that is marked as downloaded, it is never told to fetch it.
pub proof fn law_final_outcome_is_not_retried(available: bool, events: Seq<DownloadEvent>, k: int)
    requires
        0 <= k < events.len(),
    ensures
        action_at(begun(true, available), events, k) != DownloadAction::Fetch,
    decreases k,
{
    let start = begun(true, available);
    lemma_downloaded_stays(start, events.subrange(0, k));
}

proof fn lemma_downloaded_stays(start: DownloadView, events: Seq<DownloadEvent>)
    requires
        start.downloaded,
    ensures
        state_after(start, events).downloaded,
    decreases events.len(),
{
    if events.len() > 0 {
        lemma_downloaded_stays(start, events.drop_last());
    }
}

/// A file that is already at the target path is never fetched again.
pub proof fn law_present_file_is_not_fetched(v: DownloadView)
    requires
        v.stage is Probing,
    ensures
        v.step(DownloadEvent::Found(true)).1 != DownloadAction::Fetch,
        v.downloaded && v.available ==> v.step(DownloadEvent::Found(true)).1 == DownloadAction::Done,
        !(v.downloaded && v.available) ==> v.step(DownloadEvent::Found(true)) == v.settled(true),
{
}

/// The two files of a download as the runtime keeps them: the file at the
/// target path and its temporary sibling, each absent or with its bytes.
pub struct Disk {
    pub target: Option<Seq<u8>>,
    pub temp: Option<Seq<u8>>,
}

/// A download together with the disk it works on.
pub struct World {
    pub download: DownloadView,
    pub disk: Disk,
    /// What the runtime was told to do last.
    pub asked: DownloadAction,
}

/// What the runtime has done to the disk when it reports `event` of what it
/// was asked: a stream that is reported complete has written the whole
/// body to the temporary file, one that broke off has left `partial`
/// there; a move that is reported done has put the temporary file in the
/// place of the target. Nothing else touches the disk.
pub open spec fn effect(
    disk: Disk,
    asked: DownloadAction,
    event: DownloadEvent,
    body: Seq<u8>,
    partial: Seq<u8>,
) -> Disk {
    match (asked, event) {
        (DownloadAction::Stream, DownloadEvent::Streamed(true)) => Disk { temp: Some(body), ..disk },
        (DownloadAction::Stream, DownloadEvent::Streamed(false)) => Disk { temp: Some(partial), ..disk },
        (DownloadAction::Promote, DownloadEvent::Promoted(true)) => Disk {
            target: disk.temp,
            temp: None,
        },
        _ => disk,
    }
}

/// The world after one report of the runtime.
pub open spec fn world_step(world: World, event: DownloadEvent, body: Seq<u8>, partial: Seq<u8>) -> World {
    World {
        download: world.download.step(event).0,
        disk: effect(world.disk, world.asked, event, body, partial),
        asked: world.download.step(event).1,
    }
}

/// The world after the reports `events`; `partials` are the bytes that the
/// streams that broke off have left behind.
pub open spec fn world_after(
    start: World,
    events: Seq<DownloadEvent>,
    partials: Seq<Seq<u8>>,
    body: Seq<u8>,
) -> World
    recommends
        events.len() == partials.len(),
    decreases events.len(),
{
    if events.len() == 0 {
        start
    } else {
        world_step(
            world_after(start, events.drop_last(), partials.drop_last(), body),
            events.last(),
            body,
            partials.last(),
        )
    }
}

/// The world in which an execution begins: the download has just begun,
/// the runtime was asked to look for the target, and the target is absent;
/// the temporary file may hold anything an earlier attempt left.
pub open spec fn world_begun(downloaded: bool, available: bool, leftover: Option<Seq<u8>>) -> World {
    World {
        download: begun(downloaded, available),
        disk: Disk { target: None, temp: leftover },
        asked: DownloadAction::Probe,
    }
}

/// What holds of every world that an execution reaches: the target is
/// absent or holds the whole body; a stream is awaited only after it was
/// asked for; the move is awaited exactly when it was asked for, and then
/// the temporary file holds the whole body.
pub open spec fn sound(world: World, body: Seq<u8>) -> bool {
    &&& world.disk.target is None || world.disk.target == Some(body)
    &&& world.download.stage is Streaming ==> world.asked == DownloadAction::Stream
    &&& world.asked == DownloadAction::Promote <==> world.download.stage is Promoting
    &&& world.asked == DownloadAction::Promote ==> world.disk.temp == Some(body)
}

proof fn lemma_world_stays_sound(
    start: World,
    events: Seq<DownloadEvent>,
    partials: Seq<Seq<u8>>,
    body: Seq<u8>,
)
    requires
        sound(start, body),
    ensures
        sound(world_after(start, events, partials, body), body),
    decreases events.len(),
{
    if events.len() > 0 {
        lemma_world_stays_sound(start, events.drop_last(), partials.drop_last(), body);
    }
}

/// Atomic asset materialisation: whatever the runtime reports, however
/// often a stream breaks off and whatever it leaves behind, the file at the
/// target path is never a truncated one: it is absent, or it holds the
/// whole body. This holds of a first attempt and of every retry, which
/// begins with what the attempt before it left in the temporary file.
pub proof fn law_target_is_absent_or_complete(
    downloaded: bool,
    available: bool,
    leftover: Option<Seq<u8>>,
    events: Seq<DownloadEvent>,
    partials: Seq<Seq<u8>>,
    body: Seq<u8>,
)
    ensures
        ({
            let world = world_after(world_begun(downloaded, available, leftover), events, partials, body);
            world.disk.target is None || world.disk.target == Some(body)
        }),
{
    lemma_world_stays_sound(world_begun(downloaded, available, leftover), events, partials, body);
}

/// A download that ends with its file moved into place has the whole body
/// at the target path, byte for byte, whether or not earlier attempts broke
/// off: the report that the move is done leaves the target with the body
/// and the asset marked as downloaded and available.
pub proof fn law_promoted_file_is_the_body(
    downloaded: bool,
    available: bool,
    leftover: Option<Seq<u8>>,
    events: Seq<DownloadEvent>,
    partials: Seq<Seq<u8>>,
    body: Seq<u8>,
)
    requires
        world_after(world_begun(downloaded, available, leftover), events, partials, body).asked
            == DownloadAction::Promote,
    ensures
        ({
            let before = world_after(world_begun(downloaded, available, leftover), events, partials, body);
            let after = world_step(before, DownloadEvent::Promoted(true), body, Seq::empty());
            &&& after.disk.target == Some(body)
            &&& after.download.downloaded
            &&& after.download.available
        }),
{
    lemma_world_stays_sound(world_begun(downloaded, available, leftover), events, partials, body);
}

} // verus!
