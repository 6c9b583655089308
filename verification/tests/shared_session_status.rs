use warp_local::session_types::{Role, SessionId, SessionSourceType};
use warp_local::terminal::shared_session::{
    join_link, InteractionState, IsSharedSessionCreator, SharedSessionActionSource,
    SharedSessionScrollbackType, SharedSessionStatus,
};
use warp_local::terminal::BlockIndex;

fn all_statuses() -> Vec<SharedSessionStatus> {
    vec![
        SharedSessionStatus::NotShared,
        SharedSessionStatus::ViewPending,
        SharedSessionStatus::ActiveViewer { role: Role::Reader },
        SharedSessionStatus::ActiveViewer { role: Role::Executor },
        SharedSessionStatus::ActiveViewer { role: Role::Full },
        SharedSessionStatus::FinishedViewer,
        SharedSessionStatus::SharePendingPreBootstrap {
            source_type: SessionSourceType { name: "agent".to_string() },
        },
        SharedSessionStatus::SharePending,
        SharedSessionStatus::ActiveSharer,
    ]
}

#[test]
fn role_can_execute_all_but_reader() {
    assert!(!Role::Reader.can_execute());
    assert!(Role::Executor.can_execute());
    assert!(Role::Full.can_execute());
}

#[test]
fn reader_and_executor_constructors() {
    let reader = SharedSessionStatus::reader();
    assert!(reader.is_reader());
    assert!(!reader.is_executor());
    assert!(reader.is_active_viewer());
    let executor = SharedSessionStatus::executor();
    assert!(executor.is_executor());
    assert!(!executor.is_reader());
    assert!(matches!(executor, SharedSessionStatus::ActiveViewer { role: Role::Executor }));
}

#[test]
fn viewer_and_sharer_partition_shared_statuses() {
    for s in all_statuses() {
        assert_eq!(s.is_sharer_or_viewer(), s.is_viewer() || s.is_sharer());
        assert!(!(s.is_viewer() && s.is_sharer()));
    }
    assert!(!SharedSessionStatus::NotShared.is_sharer_or_viewer());
}

#[test]
fn predicates_per_variant() {
    assert!(SharedSessionStatus::ViewPending.is_view_pending());
    assert!(SharedSessionStatus::ViewPending.is_viewer());
    assert!(SharedSessionStatus::FinishedViewer.is_finished_viewer());
    assert!(SharedSessionStatus::FinishedViewer.is_viewer());
    assert!(!SharedSessionStatus::FinishedViewer.is_active_viewer());
    assert!(SharedSessionStatus::SharePending.is_share_pending());
    let pre = SharedSessionStatus::SharePendingPreBootstrap {
        source_type: SessionSourceType { name: "x".to_string() },
    };
    assert!(pre.is_share_pending());
    assert!(pre.is_sharer());
    assert!(!pre.is_active_sharer());
    assert!(SharedSessionStatus::ActiveSharer.is_active_sharer());
    assert!(SharedSessionStatus::ActiveSharer.is_sharer());
    assert!(SharedSessionStatus::ActiveViewer { role: Role::Full }.is_executor());
    assert!(!SharedSessionStatus::NotShared.is_viewer());
    assert!(!SharedSessionStatus::NotShared.is_sharer());
}

#[test]
fn keymap_contexts() {
    let expected = [
        "SharedSessionStatus_NotShared",
        "SharedSessionStatus_ViewPending",
        "SharedSessionStatus_Reader",
        "SharedSessionStatus_Executor",
        "SharedSessionStatus_Executor",
        "SharedSessionStatus_FinishedViewer",
        "SharedSessionStatus_SharePendingPreBootstrap",
        "SharedSessionStatus_SharePending",
        "SharedSessionStatus_ActiveSharer",
    ];
    for (s, e) in all_statuses().iter().zip(expected.iter()) {
        assert_eq!(s.as_keymap_context(), *e);
    }
}

#[test]
fn same_keymap_context_means_equal_status() {
    let statuses = all_statuses();
    for a in &statuses {
        for b in &statuses {
            if a.as_keymap_context() == b.as_keymap_context() {
                assert!(a == b);
            }
        }
    }
}

#[test]
fn equality_compares_variants_only() {
    assert_eq!(
        SharedSessionStatus::ActiveViewer { role: Role::Reader },
        SharedSessionStatus::ActiveViewer { role: Role::Full }
    );
    assert_eq!(
        SharedSessionStatus::SharePendingPreBootstrap {
            source_type: SessionSourceType { name: "a".to_string() }
        },
        SharedSessionStatus::SharePendingPreBootstrap {
            source_type: SessionSourceType { name: "b".to_string() }
        }
    );
    assert_ne!(SharedSessionStatus::SharePending, SharedSessionStatus::ActiveSharer);
    assert_ne!(SharedSessionStatus::NotShared, SharedSessionStatus::ViewPending);
}

#[test]
fn active_viewer_keymap_context_is_reader_or_executor() {
    let predicate = SharedSessionStatus::active_viewer_keymap_context();
    assert_eq!(
        predicate.any_of,
        vec!["SharedSessionStatus_Reader", "SharedSessionStatus_Executor"]
    );
}

#[test]
fn interaction_state_from_role() {
    assert_eq!(InteractionState::from(&Role::Reader), InteractionState::Selectable);
    assert_eq!(InteractionState::from(&Role::Executor), InteractionState::Editable);
    assert_eq!(InteractionState::from(&Role::Full), InteractionState::Editable);
}

#[test]
fn first_block_index_of_scrollback() {
    let block = BlockIndex { index: 7 };
    assert_eq!(
        SharedSessionScrollbackType::FromBlock { block_index: block }.first_block_index(),
        block
    );
    assert_eq!(SharedSessionScrollbackType::NoScrollback.first_block_index(), BlockIndex::zero());
    assert_eq!(SharedSessionScrollbackType::All.first_block_index().index, 0);
}

#[test]
fn join_link_is_inert() {
    let id = SessionId { id: "1234-abcd".to_string() };
    assert_eq!(join_link(&id), "local-session-disabled:1234-abcd");
    assert_eq!(join_link(&SessionId { id: String::new() }), "local-session-disabled:");
}

#[test]
fn defaults_and_action_sources() {
    assert!(matches!(IsSharedSessionCreator::default(), IsSharedSessionCreator::No));
    let source = SharedSessionActionSource::BlocklistContextMenu { block_index: None };
    assert_eq!(source, SharedSessionActionSource::BlocklistContextMenu { block_index: None });
    assert_ne!(source, SharedSessionActionSource::Tab);
}
