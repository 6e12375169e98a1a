use vstd::prelude::*;
use crate::asset::DbAsset;
use crate::job::HandleSignal;
use crate::json::{member_views, Json, JsonView};
use crate::record::{RecordId, RecordIdView};
use crate::scheduler::{status_members, status_patch, AfterSuccess, Schedulable, Status, Work};
use crate::table::Table;

verus! {

/// What a task does.
#[derive(Debug, Clone, Copy, PartialEq, Eq, Structural)]
pub enum TaskKind {
    /// Fetch an asset from its address.
    AssetDownload,
    /// Move an imported asset under the save directory.
    AssetTransport,
}

/// An atomic unit of work on one record.
#[derive(Debug)]
pub struct Task {
    pub id: RecordId,
    /// The record that the task works on.
    pub tar: RecordId,
    pub kind: TaskKind,
    pub payload: Option<Json>,
    pub status: Status,
    pub result: Option<Json>,
    pub error: Option<String>,
    pub retry_count: u32,
    /// Milliseconds since the epoch.
    pub started_at: Option<i64>,
    /// Milliseconds since the epoch.
    pub finished_at: Option<i64>,
}

/// Attempts to delete a finished task's record before giving up.
pub const DELETE_ATTEMPTS: u32 = 5;

/// Milliseconds between two attempts to delete a task's record.
pub const DELETE_PAUSE_MILLIS: u64 = 200;

/// What follows an attempt to delete a task's record.
#[derive(Debug, Clone, Copy, PartialEq, Eq, Structural)]
pub enum DeleteStep {
    /// The record is gone.
    Done,
    /// Wait `DELETE_PAUSE_MILLIS`, then try again.
    Again,
    /// Report the last error.
    GiveUp,
}

/// What follows the `attempt`-th attempt to delete a task's record, counted
/// from one.
pub fn after_delete(attempt: u32, succeeded: bool) -> (step: DeleteStep)
    ensures
        step == if succeeded {
            DeleteStep::Done
        } else if attempt < DELETE_ATTEMPTS {
            DeleteStep::Again
        } else {
            DeleteStep::GiveUp
        },
{
    if succeeded {
        DeleteStep::Done
    } else if attempt < DELETE_ATTEMPTS {
        DeleteStep::Again
    } else {
        DeleteStep::GiveUp
    }
}

impl Schedulable for Task {
    open spec fn spec_id(&self) -> RecordIdView {
        self.id@
    }

    open spec fn spec_status(&self) -> Status {
        self.status
    }

    open spec fn spec_retry_count(&self) -> u32 {
        self.retry_count
    }

    open spec fn progressed(self, status: Status, retry_count: u32) -> Self {
        Task { status, retry_count, ..self }
    }

    proof fn lemma_progressed(self, status: Status, retry_count: u32) {
    }

    fn id(&self) -> (r: RecordId) {
        self.id.clone()
    }

    fn status(&self) -> (r: Status) {
        self.status
    }

    fn retry_count(&self) -> (r: u32) {
        self.retry_count
    }

    fn with_progress(self, status: Status, retry_count: u32) -> (r: Self) {
        let mut task = self;
        task.status = status;
        task.retry_count = retry_count;
        task
    }

    open spec fn work(&self) -> Work {
        match self.kind {
            TaskKind::AssetDownload => Work::AssetDownload,
            TaskKind::AssetTransport => Work::AssetTransport,
        }
    }

    fn handle(&self) -> (w: Work) {
        match self.kind {
            TaskKind::AssetDownload => Work::AssetDownload,
            TaskKind::AssetTransport => Work::AssetTransport,
        }
    }

    open spec fn heeds(&self, signal: Option<HandleSignal>) -> bool {
        true
    }

    /// A task that has succeeded is deleted, whatever it signalled.
    open spec fn after_success(&self, signal: Option<HandleSignal>) -> AfterSuccess {
        AfterSuccess::Delete { notify: false }
    }

    fn on_success(&self, signal: Option<HandleSignal>) -> (a: AfterSuccess) {
        AfterSuccess::Delete { notify: false }
    }

    fn update_status(&self, status: Status, extra: Option<Json>) -> (patch: Json) {
        status_patch(status, extra)
    }
}

/// The identifier of the task that works on the asset `asset`.
pub open spec fn task_record(asset: RecordIdView) -> RecordIdView {
    RecordIdView { table: Table::Task, key: asset.key }
}

impl Task {
    /// Whether this is the new, pending task of kind `kind` on the asset
    /// `asset`.
    pub open spec fn fresh_for(self, asset: RecordIdView, kind: TaskKind) -> bool {
        &&& self.id@ == task_record(asset)
        &&& self.tar@ == asset
        &&& self.kind == kind
        &&& self.payload is None
        &&& self.status == Status::Pending
        &&& self.result is None
        &&& self.error is None
        &&& self.retry_count == 0
        &&& self.started_at is None
        &&& self.finished_at is None
    }
}

impl DbAsset {
    /// The pending task of kind `kind` on this asset.
    pub fn into_task(self, kind: TaskKind) -> (task: Task)
        ensures
            task.fresh_for(self.id@, kind),
            task.id@ == task_record(self.id@),
            task.tar == self.id,
            task.kind == kind,
            task.payload is None,
            task.status == Status::Pending,
            task.result is None,
            task.error is None,
            task.retry_count == 0,
            task.started_at is None,
            task.finished_at is None,
    {
        Task {
            id: RecordId { table: Table::Task, key: self.id.key.clone() },
            tar: self.id,
            kind,
            payload: None,
            status: Status::Pending,
            result: None,
            error: None,
            retry_count: 0,
            started_at: None,
            finished_at: None,
        }
    }
}

} // verus!
