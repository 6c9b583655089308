//! The local-first shared-session surface: every terminal is a local, unshared one,
//! and the status model keeps the predicates that the rest of the terminal asks.

pub mod manager;
pub mod permissions_manager;
pub mod presence_manager;
pub mod render_util;
pub mod role_change_modal;
pub mod viewer;

use vstd::prelude::*;
use vstd::std_specs::cmp::{PartialEqSpec, PartialEqSpecImpl};
use vstd::std_specs::convert::FromSpecImpl;

use crate::session_types::{role_can_execute, Role, SessionId, SessionSourceType};
use crate::terminal::BlockIndex;

verus! {

/// Whether this terminal created the shared session it belongs to.
#[derive(Clone, Debug)]
pub enum IsSharedSessionCreator {
    Yes { source_type: SessionSourceType },
    No,
}

impl Default for IsSharedSessionCreator {
    fn default() -> (r: Self)
        ensures
            r is No,
    {
        IsSharedSessionCreator::No
    }
}

/// The sharing status of a terminal session.
#[derive(Clone, Debug)]
pub enum SharedSessionStatus {
    NotShared,
    ViewPending,
    ActiveViewer { role: Role },
    FinishedViewer,
    SharePendingPreBootstrap { source_type: SessionSourceType },
    SharePending,
    ActiveSharer,
}

/// The position of a status's variant in the declaration of `SharedSessionStatus`.
pub open spec fn status_variant(s: SharedSessionStatus) -> int {
    match s {
        SharedSessionStatus::NotShared => 0,
        SharedSessionStatus::ViewPending => 1,
        SharedSessionStatus::ActiveViewer { .. } => 2,
        SharedSessionStatus::FinishedViewer => 3,
        SharedSessionStatus::SharePendingPreBootstrap { .. } => 4,
        SharedSessionStatus::SharePending => 5,
        SharedSessionStatus::ActiveSharer => 6,
    }
}

/// The status is one of the viewer states (pending, active or finished).
pub open spec fn status_is_viewer(s: SharedSessionStatus) -> bool {
    s is ViewPending || s is ActiveViewer || s is FinishedViewer
}

/// The status is one of the sharer states (pending before or after bootstrap, or active).
pub open spec fn status_is_sharer(s: SharedSessionStatus) -> bool {
    s is SharePending || s is SharePendingPreBootstrap || s is ActiveSharer
}

/// The status is an active viewer whose role can run commands.
pub open spec fn status_is_executor(s: SharedSessionStatus) -> bool {
    s matches SharedSessionStatus::ActiveViewer { role } && role_can_execute(role)
}

/// The status is an active viewer with the reader role.
pub open spec fn status_is_reader(s: SharedSessionStatus) -> bool {
    s matches SharedSessionStatus::ActiveViewer { role } && role == Role::Reader
}

/// The keymap context identifier of a status.
pub open spec fn status_keymap_context(s: SharedSessionStatus) -> Seq<char> {
    match s {
        SharedSessionStatus::NotShared => "SharedSessionStatus_NotShared"@,
        SharedSessionStatus::ViewPending => "SharedSessionStatus_ViewPending"@,
        SharedSessionStatus::ActiveViewer { role } => if role == Role::Reader {
            "SharedSessionStatus_Reader"@
        } else {
            "SharedSessionStatus_Executor"@
        },
        SharedSessionStatus::FinishedViewer => "SharedSessionStatus_FinishedViewer"@,
        SharedSessionStatus::SharePendingPreBootstrap {
            ..
        } => "SharedSessionStatus_SharePendingPreBootstrap"@,
        SharedSessionStatus::SharePending => "SharedSessionStatus_SharePending"@,
        SharedSessionStatus::ActiveSharer => "SharedSessionStatus_ActiveSharer"@,
    }
}

impl SharedSessionStatus {
    fn variant(&self) -> (r: u8)
        ensures
            r as int == status_variant(*self),
    {
        match self {
            SharedSessionStatus::NotShared => 0,
            SharedSessionStatus::ViewPending => 1,
            SharedSessionStatus::ActiveViewer { .. } => 2,
            SharedSessionStatus::FinishedViewer => 3,
            SharedSessionStatus::SharePendingPreBootstrap { .. } => 4,
            SharedSessionStatus::SharePending => 5,
            SharedSessionStatus::ActiveSharer => 6,
        }
    }

    /// An active viewer with the reader role.
    pub fn reader() -> (r: Self)
        ensures
            r == (SharedSessionStatus::ActiveViewer { role: Role::Reader }),
    {
        SharedSessionStatus::ActiveViewer { role: Role::Reader }
    }

    /// An active viewer with the executor role.
    pub fn executor() -> (r: Self)
        ensures
            r == (SharedSessionStatus::ActiveViewer { role: Role::Executor }),
    {
        SharedSessionStatus::ActiveViewer { role: Role::Executor }
    }

    pub fn is_view_pending(&self) -> (r: bool)
        ensures
            r == (*self is ViewPending),
    {
        match self {
            SharedSessionStatus::ViewPending => true,
            _ => false,
        }
    }

    pub fn is_active_viewer(&self) -> (r: bool)
        ensures
            r == (*self is ActiveViewer),
    {
        match self {
            SharedSessionStatus::ActiveViewer { .. } => true,
            _ => false,
        }
    }

    pub fn is_finished_viewer(&self) -> (r: bool)
        ensures
            r == (*self is FinishedViewer),
    {
        match self {
            SharedSessionStatus::FinishedViewer => true,
            _ => false,
        }
    }

    pub fn is_viewer(&self) -> (r: bool)
        ensures
            r == status_is_viewer(*self),
    {
        self.is_view_pending() || self.is_active_viewer() || self.is_finished_viewer()
    }

    pub fn is_executor(&self) -> (r: bool)
        ensures
            r == status_is_executor(*self),
    {
        match self {
            SharedSessionStatus::ActiveViewer { role } => role.can_execute(),
            _ => false,
        }
    }

    pub fn is_reader(&self) -> (r: bool)
        ensures
            r == status_is_reader(*self),
    {
        match self {
            SharedSessionStatus::ActiveViewer { role: Role::Reader } => true,
            _ => false,
        }
    }

    pub fn is_share_pending(&self) -> (r: bool)
        ensures
            r == (*self is SharePending || *self is SharePendingPreBootstrap),
    {
        match self {
            SharedSessionStatus::SharePending => true,
            SharedSessionStatus::SharePendingPreBootstrap { .. } => true,
            _ => false,
        }
    }

    pub fn is_active_sharer(&self) -> (r: bool)
        ensures
            r == (*self is ActiveSharer),
    {
        match self {
            SharedSessionStatus::ActiveSharer => true,
            _ => false,
        }
    }

    pub fn is_sharer(&self) -> (r: bool)
        ensures
            r == status_is_sharer(*self),
    {
        self.is_share_pending() || self.is_active_sharer()
    }

    pub fn is_sharer_or_viewer(&self) -> (r: bool)
        ensures
            r == !(*self is NotShared),
    {
        match self {
            SharedSessionStatus::NotShared => false,
            _ => true,
        }
    }

    /// The keymap context identifier of this status; executor and full viewers share one.
    pub fn as_keymap_context(&self) -> (r: &'static str)
        ensures
            r@ == status_keymap_context(*self),
    {
        match self {
            SharedSessionStatus::NotShared => "SharedSessionStatus_NotShared",
            SharedSessionStatus::ViewPending => "SharedSessionStatus_ViewPending",
            SharedSessionStatus::ActiveViewer { role: Role::Reader } => "SharedSessionStatus_Reader",
            SharedSessionStatus::ActiveViewer {
                role: Role::Executor,
            } => "SharedSessionStatus_Executor",
            SharedSessionStatus::ActiveViewer { role: Role::Full } => "SharedSessionStatus_Executor",
            SharedSessionStatus::FinishedViewer => "SharedSessionStatus_FinishedViewer",
            SharedSessionStatus::SharePendingPreBootstrap {
                ..
            } => "SharedSessionStatus_SharePendingPreBootstrap",
            SharedSessionStatus::SharePending => "SharedSessionStatus_SharePending",
            SharedSessionStatus::ActiveSharer => "SharedSessionStatus_ActiveSharer",
        }
    }

    /// The keymap predicate that holds in the context of any active viewer.
    pub fn active_viewer_keymap_context() -> (r: ContextPredicate)
        ensures
            r.any_of@.len() == 2,
            r.any_of@[0]@ == status_keymap_context(SharedSessionStatus::reader_spec()),
            r.any_of@[1]@ == status_keymap_context(SharedSessionStatus::executor_spec()),
    {
        let reader = SharedSessionStatus::reader();
        let executor = SharedSessionStatus::executor();
        let mut any_of: Vec<&'static str> = Vec::new();
        any_of.push(reader.as_keymap_context());
        any_of.push(executor.as_keymap_context());
        ContextPredicate { any_of }
    }

    pub open spec fn reader_spec() -> SharedSessionStatus {
        SharedSessionStatus::ActiveViewer { role: Role::Reader }
    }

    pub open spec fn executor_spec() -> SharedSessionStatus {
        SharedSessionStatus::ActiveViewer { role: Role::Executor }
    }
}

/// A keymap predicate that holds when any of its identifiers is in the keymap context.
#[derive(Clone, Debug)]
pub struct ContextPredicate {
    pub any_of: Vec<&'static str>,
}

impl PartialEq for SharedSessionStatus {
    fn eq(&self, other: &Self) -> (r: bool) {
        self.variant() == other.variant()
    }
}

impl PartialEqSpecImpl for SharedSessionStatus {
    open spec fn obeys_eq_spec() -> bool {
        true
    }

    open spec fn eq_spec(&self, other: &SharedSessionStatus) -> bool {
        status_variant(*self) == status_variant(*other)
    }
}

impl Eq for SharedSessionStatus {}

/// Whether an editor accepts edits or only selection.
#[derive(Clone, Copy, Debug, PartialEq, Eq, Structural)]
pub enum InteractionState {
    Selectable,
    Editable,
}

impl From<&Role> for InteractionState {
    fn from(value: &Role) -> (r: InteractionState) {
        match value {
            Role::Reader => InteractionState::Selectable,
            Role::Executor | Role::Full => InteractionState::Editable,
        }
    }
}

impl FromSpecImpl<&Role> for InteractionState {
    open spec fn obeys_from_spec() -> bool {
        true
    }

    open spec fn from_spec(v: &Role) -> InteractionState {
        if *v == Role::Reader {
            InteractionState::Selectable
        } else {
            InteractionState::Editable
        }
    }
}

/// How much of a session's scrollback is shared.
#[derive(Clone, Copy, Debug, Eq, PartialEq, Structural)]
pub enum SharedSessionScrollbackType {
    NoScrollback,
    FromBlock { block_index: BlockIndex },
    All,
}

impl SharedSessionScrollbackType {
    /// The first block that is shared: the given block, or block zero otherwise.
    pub fn first_block_index(self) -> (r: BlockIndex)
        ensures
            r == (match self {
                SharedSessionScrollbackType::FromBlock { block_index } => block_index,
                _ => BlockIndex { index: 0 },
            }),
    {
        match self {
            SharedSessionScrollbackType::FromBlock { block_index } => block_index,
            SharedSessionScrollbackType::NoScrollback | SharedSessionScrollbackType::All => BlockIndex::zero(),
        }
    }
}

/// Where a shared-session action came from.
#[derive(Clone, Copy, Debug, Eq, PartialEq, Structural)]
pub enum SharedSessionActionSource {
    BlocklistContextMenu { block_index: Option<BlockIndex> },
    Tab,
    PaneHeader,
    CommandPalette,
    OnboardingBlock,
    Closed { is_confirm_close_session: bool },
    InactivityModal,
    NonUser,
    SharingDialog,
    RightClickMenu,
    FooterChip,
}

/// The prefix of the inert link that stands for a session that cannot be joined.
pub open spec fn join_link_prefix() -> Seq<char> {
    "local-session-disabled:"@
}

/// The link for a session: sessions are never shared, so the link is an inert marker
/// followed by the session's id.
pub fn join_link(session_id: &SessionId) -> (r: String)
    ensures
        r@ == join_link_prefix() + session_id.id@,
{
    let link = String::from_str("local-session-disabled:");
    link.concat(session_id.id.as_str())
}


/// Every shared status is exactly one of viewer or sharer: a status is shared or viewed
/// (`is_sharer_or_viewer`) exactly when it is a viewer status or a sharer status, and no
/// status is both.
pub proof fn lemma_viewer_and_sharer_partition_shared(s: SharedSessionStatus)
    ensures
        !(s is NotShared) <==> (status_is_viewer(s) || status_is_sharer(s)),
        !(status_is_viewer(s) && status_is_sharer(s)),
{
}

/// A reader never runs commands, and anyone who may run commands is an active viewer.
pub proof fn lemma_reader_is_not_executor(s: SharedSessionStatus)
    ensures
        status_is_reader(s) ==> !status_is_executor(s),
        status_is_reader(s) || status_is_executor(s) <==> s is ActiveViewer,
{
}

/// Two statuses with the same keymap context are equal as far as `==` sees, and the keymap
/// context tells a reader from a viewer that may run commands.
pub proof fn lemma_keymap_context_determines_status(a: SharedSessionStatus, b: SharedSessionStatus)
    ensures
        status_keymap_context(a) == status_keymap_context(b) ==> status_variant(a) == status_variant(b),
        status_is_reader(a) && status_is_executor(b) ==> status_keymap_context(a)
            != status_keymap_context(b),
{
    reveal_strlit("SharedSessionStatus_NotShared");
    reveal_strlit("SharedSessionStatus_ViewPending");
    reveal_strlit("SharedSessionStatus_Reader");
    reveal_strlit("SharedSessionStatus_Executor");
    reveal_strlit("SharedSessionStatus_FinishedViewer");
    reveal_strlit("SharedSessionStatus_SharePendingPreBootstrap");
    reveal_strlit("SharedSessionStatus_SharePending");
    reveal_strlit("SharedSessionStatus_ActiveSharer");
    if status_keymap_context(a) == status_keymap_context(b) && status_variant(a) != status_variant(b) {
        let ka = status_keymap_context(a);
        let kb = status_keymap_context(b);
        assert(ka.len() != kb.len() || ka[20] != kb[20] || ka[21] != kb[21] || ka[22] != kb[22]);
    }
    if status_is_reader(a) && status_is_executor(b) {
        assert(status_keymap_context(a).len() != status_keymap_context(b).len());
    }
}

/// Which side of a shared session each status is on: the pending, active and finished viewer
/// states (an active viewer of any role) are viewer states and never sharer states; the two
/// pending-share states and the active sharer are sharer states and never viewer states; an
/// unshared terminal is neither.
pub proof fn lemma_status_sides(role: Role, source_type: SessionSourceType)
    ensures
        status_is_viewer(SharedSessionStatus::ViewPending),
        !status_is_sharer(SharedSessionStatus::ViewPending),
        status_is_viewer(SharedSessionStatus::ActiveViewer { role }),
        !status_is_sharer(SharedSessionStatus::ActiveViewer { role }),
        status_is_viewer(SharedSessionStatus::FinishedViewer),
        !status_is_sharer(SharedSessionStatus::FinishedViewer),
        status_is_sharer(SharedSessionStatus::SharePending),
        !status_is_viewer(SharedSessionStatus::SharePending),
        status_is_sharer(SharedSessionStatus::SharePendingPreBootstrap { source_type }),
        !status_is_viewer(SharedSessionStatus::SharePendingPreBootstrap { source_type }),
        status_is_sharer(SharedSessionStatus::ActiveSharer),
        !status_is_viewer(SharedSessionStatus::ActiveSharer),
        !status_is_viewer(SharedSessionStatus::NotShared),
        !status_is_sharer(SharedSessionStatus::NotShared),
{
}

/// The viewer and sharer classifications are made of the finer ones: a status is a viewer
/// exactly when it is view-pending, an active viewer or a finished viewer, and a sharer exactly
/// when its share is pending or it is the active sharer. An active viewer runs commands exactly
/// when its role allows it, and reads only exactly when its role is `Reader`.
pub proof fn lemma_classification_by_parts(s: SharedSessionStatus)
    ensures
        status_is_viewer(s) <==> (s is ViewPending || s is ActiveViewer || s is FinishedViewer),
        status_is_sharer(s) <==> ((s is SharePending || s is SharePendingPreBootstrap)
            || s is ActiveSharer),
        s matches SharedSessionStatus::ActiveViewer { role } ==> (status_is_executor(s) <==> role
            != Role::Reader) && (status_is_reader(s) <==> role == Role::Reader),
        !(s is ActiveViewer) ==> !status_is_executor(s) && !status_is_reader(s),
{
}

/// Two statuses are `==` exactly when they are the same variant, whatever their fields: each
/// of the seven variants is equal only to itself.
pub proof fn lemma_status_eq_is_same_variant(a: SharedSessionStatus, b: SharedSessionStatus)
    ensures
        PartialEqSpec::eq_spec(&a, &b) <==> {
            &&& (a is NotShared <==> b is NotShared)
            &&& (a is ViewPending <==> b is ViewPending)
            &&& (a is ActiveViewer <==> b is ActiveViewer)
            &&& (a is FinishedViewer <==> b is FinishedViewer)
            &&& (a is SharePendingPreBootstrap <==> b is SharePendingPreBootstrap)
            &&& (a is SharePending <==> b is SharePending)
            &&& (a is ActiveSharer <==> b is ActiveSharer)
        },
{
}

} // verus!
