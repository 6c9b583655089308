use warp_local::server::local_object_client::{
    LocalObjectClient, LocalObjectClientError, LocalObjectReply, ObjectClientOperation,
};

fn all_operations() -> Vec<ObjectClientOperation> {
    vec![
        ObjectClientOperation::CreateWorkflow,
        ObjectClientOperation::UpdateWorkflow,
        ObjectClientOperation::BulkCreateGenericStringObjects,
        ObjectClientOperation::CreateGenericStringObject,
        ObjectClientOperation::CreateNotebook,
        ObjectClientOperation::UpdateNotebook,
        ObjectClientOperation::CreateFolder,
        ObjectClientOperation::UpdateFolder,
        ObjectClientOperation::UpdateGenericStringObject,
        ObjectClientOperation::GrabNotebookEditAccess,
        ObjectClientOperation::GiveUpNotebookEditAccess,
        ObjectClientOperation::GetWarpDriveUpdates,
        ObjectClientOperation::FetchChangedObjects,
        ObjectClientOperation::FetchSingleCloudObject,
        ObjectClientOperation::TransferNotebookOwner,
        ObjectClientOperation::TransferWorkflowOwner,
        ObjectClientOperation::TransferGenericStringObjectOwner,
        ObjectClientOperation::TrashObject,
        ObjectClientOperation::UntrashObject,
        ObjectClientOperation::DeleteObject,
        ObjectClientOperation::EmptyTrash,
        ObjectClientOperation::MoveObject,
        ObjectClientOperation::RecordObjectAction,
        ObjectClientOperation::LeaveObject,
        ObjectClientOperation::SetObjectLinkPermissions,
        ObjectClientOperation::RemoveObjectLinkPermissions,
        ObjectClientOperation::AddObjectGuests,
        ObjectClientOperation::UpdateObjectGuests,
        ObjectClientOperation::RemoveObjectGuest,
        ObjectClientOperation::FetchEnvironmentLastTaskRunTimestamps,
    ]
}

#[test]
fn sync_reads_succeed_empty() {
    let client = LocalObjectClient::new();
    assert_eq!(
        client.outcome(ObjectClientOperation::FetchChangedObjects),
        Ok(LocalObjectReply::EmptyInitialLoad)
    );
    assert_eq!(
        client.outcome(ObjectClientOperation::GetWarpDriveUpdates),
        Ok(LocalObjectReply::UpdatesStreamEnded)
    );
    assert_eq!(
        client.outcome(ObjectClientOperation::FetchEnvironmentLastTaskRunTimestamps),
        Ok(LocalObjectReply::NoTaskRunTimestamps)
    );
}

#[test]
fn everything_else_fails_without_connection() {
    let client = LocalObjectClient::new();
    let mut failures = 0;
    for op in all_operations() {
        match client.outcome(op) {
            Ok(_) => {}
            Err(e) => {
                assert_eq!(e, LocalObjectClientError::NoCloudConnection);
                assert_eq!(e.message(), "local-only: no cloud connection");
                failures += 1;
            }
        }
    }
    assert_eq!(failures, all_operations().len() - 3);
}
