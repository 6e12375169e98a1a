use vstd::prelude::*;
use crate::asset::{join_path, joined, DbAsset};
use crate::text::{contains, occurs_in, same_text};

verus! {

/// Tells the interface that the download of one asset has come to an end.
#[derive(Debug)]
pub struct AssetDownloadEvent {
    /// The asset's name.
    pub aid: String,
    pub available: bool,
}

/// Why a download failed. Every such failure is transient: the scheduler
/// tries the task again.
#[derive(Debug, Clone, Copy, PartialEq, Eq, Structural)]
pub enum DownloadError {
    /// The server answered with this status, which is neither a success nor
    /// one of those that say the resource is gone.
    Status(u16),
    /// The request could not be sent, or no answer came.
    Transport,
    /// The body broke off, or a part of it took too long.
    Interrupted,
    /// The finished temporary file could not be moved into place.
    Rename,
    /// The asset's record could not be updated.
    Store,
    /// The runtime reported something that was not asked for.
    Protocol,
}

/// Whether a status says that the resource is gone for good.
pub open spec fn gone(code: u16) -> bool {
    code == 404 || code == 403 || code == 307 || code == 401
}

/// Whether a status is a success.
pub open spec fn success(code: u16) -> bool {
    200 <= code <= 299
}

pub fn is_gone(code: u16) -> (b: bool)
    ensures
        b == gone(code),
{
    code == 404 || code == 403 || code == 307 || code == 401
}

pub fn is_success(code: u16) -> (b: bool)
    ensures
        b == success(code),
{
    200 <= code && code <= 299
}

/// Where a download stands.
#[derive(Debug, Clone, Copy)]
pub enum Stage {
    /// Asked whether the target path exists.
    Probing,
    /// Asked for the remote resource.
    Fetching,
    /// Asked to write the body to the temporary sibling of the target.
    Streaming,
    /// Asked to move the temporary file into place.
    Promoting,
    /// Asked to update the asset's record; holds the failure to end with,
    /// if there is one.
    Saving(Option<DownloadError>),
    /// Ended.
    Done,
}

/// What the runtime reports.
#[derive(Debug, Clone, Copy)]
pub enum DownloadEvent {
    /// Whether the target path exists.
    Found(bool),
    /// The status of the answer.
    Response(u16),
    /// The request failed before any answer.
    SendFailed,
    /// Whether the whole body was written to the temporary file and
    /// flushed.
    Streamed(bool),
    /// Whether the temporary file was moved into place.
    Promoted(bool),
    /// Whether the asset's record was updated.
    Saved(bool),
}

/// What the runtime is to do next.
#[derive(Debug, Clone, Copy, PartialEq, Eq, Structural)]
pub enum DownloadAction {
    /// Look whether the target path exists.
    Probe,
    /// Make the target's directory and request the asset's address.
    Fetch,
    /// Write the body to the temporary sibling of the target, part by part,
    /// and flush it.
    Stream,
    /// Replace the target by the temporary file, in one step.
    Promote,
    /// Update the asset's record; with `announce`, buffer the completion
    /// event once the record is updated.
    Persist { announce: bool },
    /// The task has succeeded.
    Done,
    /// The task has failed.
    Fail(DownloadError),
}

/// A download as far as its decisions depend on it.
pub struct DownloadView {
    pub stage: Stage,
    pub downloaded: bool,
    pub available: bool,
}

impl DownloadView {
    /// A transient failure: the asset is left unavailable and is not marked
    /// as downloaded, its record is updated without a completion event, and
    /// the task ends with the failure.
    pub open spec fn transient(self, error: DownloadError) -> (DownloadView, DownloadAction) {
        (
            DownloadView { stage: Stage::Saving(Some(error)), available: false, ..self },
            DownloadAction::Persist { announce: false },
        )
    }

    /// A final outcome: the asset is marked as downloaded, available or
    /// not, its record is updated and the completion event is buffered.
    pub open spec fn settled(self, available: bool) -> (DownloadView, DownloadAction) {
        (
            DownloadView { stage: Stage::Saving(None), downloaded: true, available },
            DownloadAction::Persist { announce: true },
        )
    }

    /// The download after `event`, and what to do next.
    pub open spec fn step(self, event: DownloadEvent) -> (DownloadView, DownloadAction) {
        match (self.stage, event) {
            (Stage::Probing, DownloadEvent::Found(true)) => if !self.downloaded || !self.available {
                self.settled(true)
            } else {
                (DownloadView { stage: Stage::Done, ..self }, DownloadAction::Done)
            },
            (Stage::Probing, DownloadEvent::Found(false)) => if self.downloaded {
                (DownloadView { stage: Stage::Done, ..self }, DownloadAction::Done)
            } else {
                (DownloadView { stage: Stage::Fetching, ..self }, DownloadAction::Fetch)
            },
            (Stage::Fetching, DownloadEvent::Response(code)) => if gone(code) {
                self.settled(false)
            } else if success(code) {
                (DownloadView { stage: Stage::Streaming, ..self }, DownloadAction::Stream)
            } else {
                self.transient(DownloadError::Status(code))
            },
            (Stage::Fetching, DownloadEvent::SendFailed) => self.transient(DownloadError::Transport),
            (Stage::Streaming, DownloadEvent::Streamed(true)) => (
                DownloadView { stage: Stage::Promoting, ..self },
                DownloadAction::Promote,
            ),
            (Stage::Streaming, DownloadEvent::Streamed(false)) => self.transient(
                DownloadError::Interrupted,
            ),
            (Stage::Promoting, DownloadEvent::Promoted(true)) => self.settled(true),
            (Stage::Promoting, DownloadEvent::Promoted(false)) => self.transient(DownloadError::Rename),
            (Stage::Saving(None), DownloadEvent::Saved(true)) => (
                DownloadView { stage: Stage::Done, ..self },
                DownloadAction::Done,
            ),
            (Stage::Saving(Some(error)), DownloadEvent::Saved(true)) => (
                DownloadView { stage: Stage::Done, ..self },
                DownloadAction::Fail(error),
            ),
            (Stage::Saving(_), DownloadEvent::Saved(false)) => (
                DownloadView { stage: Stage::Done, ..self },
                DownloadAction::Fail(DownloadError::Store),
            ),
            _ => (DownloadView { stage: Stage::Done, ..self }, DownloadAction::Fail(DownloadError::Protocol)),
        }
    }
}

/// The execution of one download task: it decides, the runtime acts.
///
/// The file at the target path is either absent or complete: the body is
/// written to a temporary sibling, which replaces the target only after the
/// whole body was written and flushed. An asset that is marked as
/// downloaded has its final outcome and is not fetched again.
pub struct Download {
    asset: DbAsset,
    stage: Stage,
}

impl View for Download {
    type V = DownloadView;

    closed spec fn view(&self) -> DownloadView {
        DownloadView {
            stage: self.stage,
            downloaded: self.asset.downloaded,
            available: self.asset.available,
        }
    }
}

impl Download {
    /// The asset's record as the download has it.
    pub closed spec fn record(&self) -> DbAsset {
        self.asset
    }

    /// Begins the download of `asset`; the first thing to do is
    /// `DownloadAction::Probe`.
    pub fn begin(asset: DbAsset) -> (d: Download)
        ensures
            d.record() == asset,
            d@ == (DownloadView {
                stage: Stage::Probing,
                downloaded: asset.downloaded,
                available: asset.available,
            }),
    {
        Download { asset, stage: Stage::Probing }
    }

    /// Takes what the runtime reports and decides what it does next. Of the
    /// asset's record only the two flags ever change.
    pub fn step(&mut self, event: DownloadEvent) -> (action: DownloadAction)
        ensures
            (final(self)@, action) == old(self)@.step(event),
            final(self).record() == (DbAsset {
                downloaded: final(self)@.downloaded,
                available: final(self)@.available,
                ..old(self).record()
            }),
    {
        match (self.stage, event) {
            (Stage::Probing, DownloadEvent::Found(true)) => {
                if !self.asset.downloaded || !self.asset.available {
                    self.settle(true)
                } else {
                    self.stage = Stage::Done;
                    DownloadAction::Done
                }
            },
            (Stage::Probing, DownloadEvent::Found(false)) => {
                if self.asset.downloaded {
                    self.stage = Stage::Done;
                    DownloadAction::Done
                } else {
                    self.stage = Stage::Fetching;
                    DownloadAction::Fetch
                }
            },
            (Stage::Fetching, DownloadEvent::Response(code)) => {
                if is_gone(code) {
                    self.settle(false)
                } else if is_success(code) {
                    self.stage = Stage::Streaming;
                    DownloadAction::Stream
                } else {
                    self.fail(DownloadError::Status(code))
                }
            },
            (Stage::Fetching, DownloadEvent::SendFailed) => self.fail(DownloadError::Transport),
            (Stage::Streaming, DownloadEvent::Streamed(true)) => {
                self.stage = Stage::Promoting;
                DownloadAction::Promote
            },
            (Stage::Streaming, DownloadEvent::Streamed(false)) => self.fail(DownloadError::Interrupted),
            (Stage::Promoting, DownloadEvent::Promoted(true)) => self.settle(true),
            (Stage::Promoting, DownloadEvent::Promoted(false)) => self.fail(DownloadError::Rename),
            (Stage::Saving(None), DownloadEvent::Saved(true)) => {
                self.stage = Stage::Done;
                DownloadAction::Done
            },
            (Stage::Saving(Some(error)), DownloadEvent::Saved(true)) => {
                self.stage = Stage::Done;
                DownloadAction::Fail(error)
            },
            (Stage::Saving(_), DownloadEvent::Saved(false)) => {
                self.stage = Stage::Done;
                DownloadAction::Fail(DownloadError::Store)
            },
            _ => {
                self.stage = Stage::Done;
                DownloadAction::Fail(DownloadError::Protocol)
            },
        }
    }

    fn settle(&mut self, available: bool) -> (action: DownloadAction)
        ensures
            (final(self)@, action) == old(self)@.settled(available),
            final(self).record() == (DbAsset {
                downloaded: true,
                available,
                ..old(self).record()
            }),
    {
        self.asset.downloaded = true;
        self.asset.available = available;
        self.stage = Stage::Saving(None);
        DownloadAction::Persist { announce: true }
    }

    fn fail(&mut self, error: DownloadError) -> (action: DownloadAction)
        ensures
            (final(self)@, action) == old(self)@.transient(error),
            final(self).record() == (DbAsset { available: false, ..old(self).record() }),
    {
        self.asset.available = false;
        self.stage = Stage::Saving(Some(error));
        DownloadAction::Persist { announce: false }
    }

    /// The asset's record, to read its address and path and to persist it.
    pub fn asset(&self) -> (a: &DbAsset)
        ensures
            *a == self.record(),
    {
        &self.asset
    }

    /// The completion event of the asset as it stands.
    pub fn completion(&self) -> (ev: AssetDownloadEvent)
        ensures
            ev.aid@ == self.record().name@,
            ev.available == self@.available,
    {
        AssetDownloadEvent { aid: self.asset.name.clone(), available: self.asset.available }
    }

    /// Whether the download has ended.
    pub fn is_done(&self) -> (b: bool)
        ensures
            b == (self@.stage is Done),
    {
        match self.stage {
            Stage::Done => true,
            _ => false,
        }
    }

    /// Ends the download and gives the record back.
    pub fn into_asset(self) -> (a: DbAsset)
        ensures
            a == self.record(),
    {
        self.asset
    }
}

/// What moving an imported asset under the save directory takes.
#[derive(Debug, Clone, Copy, PartialEq, Eq, Structural)]
pub enum Transport {
    /// Neither copy nor change: the asset is marked as unavailable, or lies
    /// at its target already.
    Keep,
    /// The target exists: the record takes its path, nothing is copied.
    Adopt,
    /// Copy the file to the target; the record takes its path.
    Copy,
}

/// The marker that stands in the path of an asset that could not be had.
pub open spec fn unavailable_marker() -> Seq<char> {
    "media unavailable"@
}

/// Where an asset of the directory `kind` and the name `name` lies under
/// the save directory `base`.
pub open spec fn target_path(base: Seq<char>, kind: Seq<char>, name: Seq<char>) -> Seq<char> {
    joined(joined(base, kind), name)
}

pub open spec fn transport_for(path: Seq<char>, target: Seq<char>, target_exists: bool) -> Transport {
    if occurs_in(path, unavailable_marker()) {
        Transport::Keep
    } else if target_exists {
        Transport::Adopt
    } else if path == target {
        Transport::Keep
    } else {
        Transport::Copy
    }
}

/// The path under which an asset is kept: `base`, the directory of its
/// kind, its name.
pub fn transport_target(base: &str, kind: &str, name: &str) -> (r: String)
    ensures
        r@ == target_path(base@, kind@, name@),
{
    let dir = join_path(base, kind);
    join_path(dir.as_str(), name)
}

/// Decides how an asset that lies at `path` comes to lie at `target`.
pub fn plan_transport(path: &str, target: &str, target_exists: bool) -> (t: Transport)
    ensures
        t == transport_for(path@, target@, target_exists),
{
    if contains(path, "media unavailable") {
        Transport::Keep
    } else if target_exists {
        Transport::Adopt
    } else if same_text(path, target) {
        Transport::Keep
    } else {
        Transport::Copy
    }
}

} // verus!
