//! Crash reporting of a local-first build: no crash reporter is ever started, and every
//! call that would feed one does nothing.

pub mod mac;
pub mod sentry_minidump;

use vstd::prelude::*;

use crate::auth::UserUid;

verus! {

/// What the antivirus detection found, as handed to the crash reporter; nothing reads it.
#[derive(Clone, Copy, Debug, Default)]
pub struct AntivirusInfo;

/// The GPU in use, as handed to the crash reporter; nothing reads it.
#[derive(Clone, Copy, Debug, Default)]
pub struct GpuDeviceInfo;

/// An app model whose events crash reporting observes.
#[derive(Clone, Copy, Debug, PartialEq, Eq, Structural)]
pub enum ObservedModel {
    WindowManager,
    AntivirusInfo,
    PrivacySettings,
}

/// The models that crash reporting observes when its feature flag is on, in order: the window
/// manager, the antivirus info and the privacy settings.
pub open spec fn observed_when_enabled() -> Seq<ObservedModel> {
    seq![ObservedModel::WindowManager, ObservedModel::AntivirusInfo, ObservedModel::PrivacySettings]
}

/// What starting crash reporting decides.
#[derive(Clone, Debug)]
pub struct CrashReportingInit {
    /// The models to subscribe to, each with a callback that ignores every event, so that the
    /// parts of the app that wait on those subscriptions keep working.
    pub observed_models: Vec<ObservedModel>,
    /// Whether crash reporting started: never.
    pub initialized: bool,
}

/// Starts crash reporting. With the crash-reporting feature flag off nothing is observed;
/// with it on the window manager, the antivirus info and the privacy settings are observed;
/// either way crash reporting stays off.
pub fn init(crash_reporting_flag_enabled: bool) -> (r: CrashReportingInit)
    ensures
        crash_reporting_flag_enabled ==> r.observed_models@ == observed_when_enabled(),
        !crash_reporting_flag_enabled ==> r.observed_models@ == Seq::<ObservedModel>::empty(),
        !r.initialized,
{
    let mut observed_models: Vec<ObservedModel> = Vec::new();
    if !crash_reporting_flag_enabled {
        return CrashReportingInit { observed_models, initialized: false };
    }
    observed_models.push(ObservedModel::WindowManager);
    observed_models.push(ObservedModel::AntivirusInfo);
    observed_models.push(ObservedModel::PrivacySettings);
    CrashReportingInit { observed_models, initialized: false }
}

/// Stops crash reporting; there is nothing to stop.
pub fn uninit_sentry() {
}

/// Sets a crash-reporting tag; it is dropped.
pub fn set_tag(_key: &str, _value: &str) {
}

/// Records the GPU in use; it is dropped.
pub fn set_gpu_device_info(_gpu_device_info: &GpuDeviceInfo) {
}

/// Records what the antivirus detection found; it is dropped.
pub fn set_antivirus_info(_antivirus_info: &AntivirusInfo) {
}

/// Records the client type; it is dropped.
pub fn set_client_type_tag(_client_id: &str) {
}

/// Starts the Cocoa crash reporter; there is none.
pub fn init_cocoa_sentry() {
}

/// Stops the Cocoa crash reporter; there is none.
pub fn uninit_cocoa_sentry() {
}

/// Would trigger a test crash; it does nothing.
pub fn crash() {
}

/// Records the user and email; they are dropped.
pub fn set_user_id(_user_id: UserUid, _email: Option<String>) {
}

} // verus!
