use warp_local::ai::shared_session::SharedSessionState;
use warp_local::auth::UserUid;
use warp_local::color::ColorU;
use warp_local::crash_reporting::{
    self, mac, sentry_minidump::run_server, sentry_minidump::MinidumpServerError, AntivirusInfo,
    GpuDeviceInfo, ObservedModel,
};
use warp_local::session_types::{ParticipantId, Role, RoleRequestId, RoleRequestResponse};
use warp_local::terminal::shared_session::role_change_modal::RoleChangeModalEvent;
use warp_local::settings::cloud_preferences_syncer::{
    initialize_cloud_preferences_syncer, CloudPreferencesSyncer, CloudPreferencesSyncerEvent,
};
use warp_local::terminal::shared_session::manager::Manager;
use warp_local::terminal::shared_session::permissions_manager::SessionPermissionsManager;
use warp_local::terminal::shared_session::presence_manager::{
    muted_participant_color, text_selection_color, PresenceManager,
};
use warp_local::terminal::shared_session::render_util::shared_session_indicator_color;
use warp_local::terminal::shared_session::viewer::history_model::SharedSessionHistoryModel;
use warp_local::terminal::view::shared_session::Sharer;
use warp_local::workspaces::update_manager::TeamUpdateManager;

#[test]
fn history_keeps_push_order() {
    let mut history: SharedSessionHistoryModel<String> = SharedSessionHistoryModel::new();
    assert!(history.entries().is_empty());
    history.push("ls".to_string());
    history.push("cd /tmp".to_string());
    history.push("ls".to_string());
    assert_eq!(history.entries(), &["ls".to_string(), "cd /tmp".to_string(), "ls".to_string()]);
    let default: SharedSessionHistoryModel<u32> = Default::default();
    assert_eq!(default.entries().len(), 0);
}

#[test]
fn nobody_else_is_present() {
    let presence = PresenceManager;
    assert!(!presence.is_reconnecting());
    assert!(presence.all_present_participants().is_empty());
    assert!(presence.get_participant(&ParticipantId { id: "p1".to_string() }).is_none());
    assert_eq!(presence.role(), Role::Full);
}

#[test]
fn colors() {
    let gray = ColorU { r: 128, g: 128, b: 128, a: 255 };
    assert_eq!(muted_participant_color(), gray);
    assert_eq!(shared_session_indicator_color(), gray);
    let red = ColorU::new(255, 0, 0, 200);
    assert_eq!(red, ColorU { r: 255, g: 0, b: 0, a: 200 });
    assert_eq!(text_selection_color(red), red);
}

#[test]
fn response_initiator_is_never_recorded() {
    let mut state = SharedSessionState::default();
    assert!(state.get_current_response_initiator().is_none());
    state.set_current_response_initiator(ParticipantId { id: "p".to_string() });
    assert!(state.get_current_response_initiator().is_none());
    assert!(state.get_sharer_participant_id().is_none());
}

#[test]
fn syncer_completes_initial_load() {
    let mut syncer = initialize_cloud_preferences_syncer("settings.toml".to_string(), None);
    assert_eq!(syncer, CloudPreferencesSyncer::new());
    assert!(matches!(
        syncer.handle_user_fetched(),
        CloudPreferencesSyncerEvent::InitialLoadCompleted
    ));
    syncer.maybe_sync_local_prefs_to_cloud(vec!["theme".to_string()]);
    assert_eq!(syncer, CloudPreferencesSyncer);
}

#[test]
fn crash_reporting_never_starts() {
    let off = crash_reporting::init(false);
    assert!(off.observed_models.is_empty());
    assert!(!off.initialized);
    let on = crash_reporting::init(true);
    assert_eq!(
        on.observed_models,
        vec![
            ObservedModel::WindowManager,
            ObservedModel::AntivirusInfo,
            ObservedModel::PrivacySettings
        ]
    );
    assert!(!on.initialized);
    crash_reporting::uninit_sentry();
    crash_reporting::set_tag("k", "v");
    crash_reporting::set_gpu_device_info(&GpuDeviceInfo);
    crash_reporting::set_antivirus_info(&AntivirusInfo);
    crash_reporting::set_client_type_tag("client");
    crash_reporting::init_cocoa_sentry();
    crash_reporting::uninit_cocoa_sentry();
    crash_reporting::crash();
    crash_reporting::set_user_id(UserUid::new("u"), Some("e@example.com".to_string()));
    mac::init_cocoa_sentry();
    mac::uninit_cocoa_sentry();
    mac::crash();
    mac::set_user_id("u");
    mac::forward_breadcrumb("m", "c", "info");
    mac::set_tag("k", "v");
}

#[test]
fn minidump_server_is_unsupported() {
    let result = run_server("/tmp/socket");
    assert_eq!(result, Err(MinidumpServerError::Unsupported));
    assert_eq!(
        MinidumpServerError::Unsupported.message(),
        "Minidump crash reporting server is not supported in this build"
    );
}

#[test]
fn refresh_is_complete_at_once() {
    let mut manager = TeamUpdateManager::new();
    let mut rx = manager.refresh_workspace_metadata();
    assert_eq!(rx.try_recv(), Ok(Some(())));
    manager.stop_polling_for_workspace_metadata_updates();
    manager.stop_polling_for_workspace_metadata_updates();
    let later = manager.refresh_workspace_metadata();
    assert_eq!(futures::executor::block_on(later), Ok(()));
    assert_eq!(manager, TeamUpdateManager::mock());
}

#[test]
fn no_views_are_shared() {
    let manager = Manager::new();
    assert!(manager.shared_views().is_empty());
    assert!(Manager::as_ref().shared_views().is_empty());
    let _ = SessionPermissionsManager::new();
    assert!(!Sharer {}.is_inactivity_warning_modal_open());
}

#[test]
fn history_of_many_pushes() {
    let mut history: SharedSessionHistoryModel<u32> = SharedSessionHistoryModel::new();
    for i in 0..50 {
        history.push(i);
    }
    let expected: Vec<u32> = (0..50).collect();
    assert_eq!(history.entries(), expected.as_slice());
    assert_eq!(history.entries(), expected.as_slice());
}

#[test]
fn role_change_events() {
    let event = RoleChangeModalEvent::Respond {
        request_id: RoleRequestId { id: "r1".to_string() },
        response: RoleRequestResponse { approved: true },
    };
    assert!(matches!(event, RoleChangeModalEvent::Respond { response, .. } if response.approved));
}
