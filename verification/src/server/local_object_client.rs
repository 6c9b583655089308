//! The object client of a local-first build, which has no cloud connection.
//!
//! Every write fails at once, so the sync queue reports a failure and does not retry.
//! Fetching changed objects succeeds with nothing changed, so the initial load completes and
//! unlocks its subscribers; the update stream ends at once, and there are no task runs.

use std::sync::Arc;
use vstd::prelude::*;

verus! {

/// The cloud-object client that never reaches a server.
#[derive(Clone, Copy, Debug, PartialEq, Eq, Structural)]
pub struct LocalObjectClient;

/// The operations of a cloud-object client.
#[derive(Clone, Copy, Debug, PartialEq, Eq, Structural)]
pub enum ObjectClientOperation {
    CreateWorkflow,
    UpdateWorkflow,
    BulkCreateGenericStringObjects,
    CreateGenericStringObject,
    CreateNotebook,
    UpdateNotebook,
    CreateFolder,
    UpdateFolder,
    UpdateGenericStringObject,
    GrabNotebookEditAccess,
    GiveUpNotebookEditAccess,
    GetWarpDriveUpdates,
    FetchChangedObjects,
    FetchSingleCloudObject,
    TransferNotebookOwner,
    TransferWorkflowOwner,
    TransferGenericStringObjectOwner,
    TrashObject,
    UntrashObject,
    DeleteObject,
    EmptyTrash,
    MoveObject,
    RecordObjectAction,
    LeaveObject,
    SetObjectLinkPermissions,
    RemoveObjectLinkPermissions,
    AddObjectGuests,
    UpdateObjectGuests,
    RemoveObjectGuest,
    FetchEnvironmentLastTaskRunTimestamps,
}

/// What a successful operation of the local client answers.
#[derive(Clone, Copy, Debug, PartialEq, Eq, Structural)]
pub enum LocalObjectReply {
    /// The update stream ended without delivering any update.
    UpdatesStreamEnded,
    /// The initial load found nothing changed.
    EmptyInitialLoad,
    /// No environment has a task run.
    NoTaskRunTimestamps,
}

/// Why an operation of the local client failed.
#[derive(Clone, Copy, Debug, PartialEq, Eq, Structural)]
pub enum LocalObjectClientError {
    /// There is no cloud connection.
    NoCloudConnection,
}

impl LocalObjectClientError {
    /// The message of the error.
    pub fn message(&self) -> (r: &'static str)
        ensures
            r@ == "local-only: no cloud connection"@,
    {
        "local-only: no cloud connection"
    }
}

/// What the local client answers to an operation: the three reads that unlock the rest of
/// the app succeed with empty answers, and everything else fails for want of a connection.
pub open spec fn local_outcome(op: ObjectClientOperation) -> Result<
    LocalObjectReply,
    LocalObjectClientError,
> {
    match op {
        ObjectClientOperation::GetWarpDriveUpdates => Ok(LocalObjectReply::UpdatesStreamEnded),
        ObjectClientOperation::FetchChangedObjects => Ok(LocalObjectReply::EmptyInitialLoad),
        ObjectClientOperation::FetchEnvironmentLastTaskRunTimestamps => Ok(
            LocalObjectReply::NoTaskRunTimestamps,
        ),
        _ => Err(LocalObjectClientError::NoCloudConnection),
    }
}

impl LocalObjectClient {
    /// A shared handle to a new client.
    pub fn new() -> (r: Arc<Self>)
        ensures
            *r == LocalObjectClient,
    {
        Arc::new(LocalObjectClient)
    }

    /// What the client answers to `op`.
    pub fn outcome(&self, op: ObjectClientOperation) -> (r: Result<
        LocalObjectReply,
        LocalObjectClientError,
    >)
        ensures
            r == local_outcome(op),
    {
        match op {
            ObjectClientOperation::GetWarpDriveUpdates => Ok(LocalObjectReply::UpdatesStreamEnded),
            ObjectClientOperation::FetchChangedObjects => Ok(LocalObjectReply::EmptyInitialLoad),
            ObjectClientOperation::FetchEnvironmentLastTaskRunTimestamps => Ok(
                LocalObjectReply::NoTaskRunTimestamps,
            ),
            _ => Err(LocalObjectClientError::NoCloudConnection),
        }
    }
}

/// The operations that read from the server rather than change anything on it.
pub open spec fn is_sync_read(op: ObjectClientOperation) -> bool {
    ||| op == ObjectClientOperation::GetWarpDriveUpdates
    ||| op == ObjectClientOperation::FetchChangedObjects
    ||| op == ObjectClientOperation::FetchEnvironmentLastTaskRunTimestamps
}

/// Without a cloud connection an operation succeeds exactly when it is one of the reads that
/// the initial load waits on, and every failure is the missing connection.
pub proof fn lemma_only_sync_reads_succeed(op: ObjectClientOperation)
    ensures
        local_outcome(op) is Ok <==> is_sync_read(op),
        local_outcome(op) is Err ==> local_outcome(op) == Err::<
            LocalObjectReply,
            LocalObjectClientError,
        >(LocalObjectClientError::NoCloudConnection),
{
}

} // verus!
