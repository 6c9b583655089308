//! The registry of shared terminal views: with sharing removed it holds none.

use vstd::prelude::*;

use crate::session_types::SessionId;

verus! {

/// Keeps track of the terminal views that are being shared; there never are any.
#[derive(Clone, Copy, Debug, Default)]
pub struct Manager;

/// Events of the shared-session manager.
#[derive(Clone, Debug)]
pub enum ManagerEvent {
    /// Copy the join link of a session.
    CopyLink(SessionId),
}

impl Manager {
    pub fn new() -> (r: Self) {
        Manager
    }

    /// The process-wide manager.
    pub fn as_ref() -> (r: &'static Self)
        ensures
            *r == Manager,
    {
        &Manager
    }

    /// The ids of the terminal views being shared: always none.
    pub fn shared_views(&self) -> (r: Vec<u64>)
        ensures
            r@.len() == 0,
    {
        Vec::new()
    }
}

} // verus!
