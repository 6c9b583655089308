//! Why the role-change modal was opened or closed.

use vstd::prelude::*;

use crate::session_types::{ParticipantId, Role, RoleRequestId, RoleRequestResponse};

verus! {

/// What opened the role-change modal.
#[derive(Clone, Debug)]
pub enum RoleChangeOpenSource {
    ViewerRequest { role: Role },
    SharerResponse { participant_id: ParticipantId, role_request_id: RoleRequestId, role: Role },
    SharerGrant { participant_id: ParticipantId },
}

/// What closed the role-change modal.
#[derive(Clone, Copy, Debug, PartialEq, Eq, Structural)]
pub enum RoleChangeCloseSource {
    ViewerRequest,
    SharerResponse,
    SharerGrant,
}

/// Events of the role-change modal.
#[derive(Clone, Debug)]
pub enum RoleChangeModalEvent {
    Respond { request_id: RoleRequestId, response: RoleRequestResponse },
    MakeAllReaders,
}

} // verus!
