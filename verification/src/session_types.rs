//! Plain-value models of the identifiers and roles that session sharing speaks of.

use vstd::prelude::*;

verus! {

/// The permission level of a participant in a shared session.
#[derive(Clone, Copy, Debug, PartialEq, Eq, Structural)]
pub enum Role {
    /// May only read the session.
    Reader,
    /// May run commands in the session.
    Executor,
    /// Full control of the session.
    Full,
}

/// Whether a role allows running commands.
pub open spec fn role_can_execute(role: Role) -> bool {
    role != Role::Reader
}

impl Role {
    /// Returns whether this role allows running commands: every role but `Reader` does.
    pub fn can_execute(&self) -> (r: bool)
        ensures
            r == role_can_execute(*self),
    {
        match self {
            Role::Reader => false,
            Role::Executor | Role::Full => true,
        }
    }
}

/// Only readers are kept from running commands: an executor and a full participant may run
/// them, a reader may not.
pub proof fn lemma_only_readers_cannot_execute()
    ensures
        !role_can_execute(Role::Reader),
        role_can_execute(Role::Executor),
        role_can_execute(Role::Full),
{
}

/// Identifies a shared session by its printed form.
#[derive(Clone, Debug)]
pub struct SessionId {
    pub id: String,
}

/// Identifies a participant of a shared session by its printed form.
#[derive(Clone, Debug)]
pub struct ParticipantId {
    pub id: String,
}

/// Identifies a request for a role change.
#[derive(Clone, Debug)]
pub struct RoleRequestId {
    pub id: String,
}

/// What kind of source started a shared session, by name.
#[derive(Clone, Debug)]
pub struct SessionSourceType {
    pub name: String,
}

/// The size of a terminal window in rows and columns.
#[derive(Clone, Copy, Debug, PartialEq, Eq, Structural)]
pub struct WindowSize {
    pub num_rows: usize,
    pub num_cols: usize,
}

/// A participant's text selection in a shared session; nothing in this surface reads it.
#[derive(Clone, Copy, Debug, PartialEq, Eq, Structural)]
pub struct Selection {}

/// A sharer's answer to a viewer's request for a role.
#[derive(Clone, Copy, Debug, PartialEq, Eq, Structural)]
pub struct RoleRequestResponse {
    pub approved: bool,
}

} // verus!
