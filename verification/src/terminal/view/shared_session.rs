//! The shared-session state a terminal view would hold, whether it views or shares.

use vstd::prelude::*;

use crate::session_types::{SessionId, WindowSize};
use crate::terminal::shared_session::presence_manager::PresenceManager;

verus! {

/// A moment in time, in milliseconds since the Unix epoch.
#[derive(Clone, Copy, Debug, PartialEq, Eq, Structural)]
pub struct Timestamp {
    pub millis_since_epoch: i64,
}

/// Whether the view takes part as a viewer or as the sharer.
pub enum Kind {
    Viewer(Viewer),
    Sharer(Sharer),
}

impl Kind {
    /// The viewer state, when the view is a viewer.
    pub fn as_viewer(&self) -> (r: Option<&Viewer>)
        ensures
            match *self {
                Kind::Viewer(v) => r == Some(&v),
                Kind::Sharer(_) => r is None,
            },
    {
        match self {
            Kind::Viewer(viewer) => Some(viewer),
            Kind::Sharer(_) => None,
        }
    }
}

/// The shared-session state of one terminal view.
pub struct SharedSessionAdapter {
    session_id: SessionId,
    started_at: Timestamp,
    presence_manager: PresenceManager,
    kind: Kind,
}

impl SharedSessionAdapter {
    /// The id of the session this view takes part in.
    pub closed spec fn session_id_value(&self) -> SessionId {
        self.session_id
    }

    /// When the session started.
    pub closed spec fn started_at_value(&self) -> Timestamp {
        self.started_at
    }

    /// Who is present in the session.
    pub closed spec fn presence_manager_value(&self) -> PresenceManager {
        self.presence_manager
    }

    /// Whether the view is a viewer or the sharer.
    pub closed spec fn kind_value(&self) -> Kind {
        self.kind
    }

    pub fn session_id(&self) -> (r: &SessionId)
        ensures
            *r == self.session_id_value(),
    {
        &self.session_id
    }

    pub fn started_at(&self) -> (r: &Timestamp)
        ensures
            *r == self.started_at_value(),
    {
        &self.started_at
    }

    pub fn kind(&self) -> (r: &Kind)
        ensures
            *r == self.kind_value(),
    {
        &self.kind
    }

    pub fn presence_manager(&self) -> (r: &PresenceManager)
        ensures
            *r == self.presence_manager_value(),
    {
        &self.presence_manager
    }
}

/// The avatar of a participant, by the id of the view that draws it.
#[derive(Clone, Copy, Debug, PartialEq, Eq, Structural)]
pub struct ParticipantAvatar {
    pub avatar_view_id: u64,
}

/// The state of a view that watches someone else's session.
pub struct Viewer {
    pub sharer: Option<ParticipantAvatar>,
    pub sharer_size: Option<WindowSize>,
    pub last_reported_natural_size: Option<(usize, usize)>,
    pub is_role_change_menu_open: bool,
}

/// The state of a view whose session is shared.
pub struct Sharer {}

impl Sharer {
    /// Whether the inactivity warning is open: sharing never starts, so it never is.
    pub fn is_inactivity_warning_modal_open(&self) -> (r: bool)
        ensures
            !r,
    {
        false
    }
}

} // verus!
