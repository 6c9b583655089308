//! The shared-session state of an agent conversation: a local conversation has no other
//! participants, so nobody but the local user ever initiates a response.

use vstd::prelude::*;

use crate::session_types::ParticipantId;

verus! {

/// Which participant of a shared session drives an agent conversation; it holds nothing.
#[derive(Clone, Copy, Debug, Default)]
pub struct SharedSessionState;

impl SharedSessionState {
    /// The participant who initiated the current response: never a remote one.
    pub fn get_current_response_initiator(&self) -> (r: Option<ParticipantId>)
        ensures
            r is None,
    {
        None
    }

    /// Records who initiated the current response; a local session keeps no record of it.
    pub fn set_current_response_initiator(&mut self, _participant_id: ParticipantId)
        ensures
            *final(self) == *old(self),
    {
    }

    /// The participant id of the sharer: there is none.
    pub fn get_sharer_participant_id(&self) -> (r: Option<ParticipantId>)
        ensures
            r is None,
    {
        None
    }
}

} // verus!
