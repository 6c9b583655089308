//! The preferences syncer of a local-first build: settings stay in the local settings file,
//! and the syncer only tells its subscribers that the initial load is complete.

use vstd::prelude::*;

verus! {

/// The syncer that once mirrored preferences to the cloud; it holds no state.
#[derive(Clone, Copy, Debug, PartialEq, Eq, Structural)]
pub struct CloudPreferencesSyncer;

/// Events of the preferences syncer.
#[derive(Clone, Debug)]
pub enum CloudPreferencesSyncerEvent {
    /// The initial load is complete; emitted once a user has been fetched.
    InitialLoadCompleted,
    /// A preference changed remotely; never emitted.
    Updated { key: String, value: String },
}

/// Builds the syncer. Nothing is read from the settings file or its parse error: settings
/// are already kept locally.
pub fn initialize_cloud_preferences_syncer(
    _toml_file_path: String,
    _startup_toml_parse_error: Option<&str>,
) -> (r: CloudPreferencesSyncer) {
    CloudPreferencesSyncer::new()
}

impl CloudPreferencesSyncer {
    pub fn new() -> (r: Self) {
        CloudPreferencesSyncer
    }

    /// Handles a fetched user: returns the event to emit on the next tick of the event loop,
    /// which is always that the initial load is complete.
    pub fn handle_user_fetched(&mut self) -> (r: CloudPreferencesSyncerEvent)
        ensures
            r is InitialLoadCompleted,
            *final(self) == *old(self),
    {
        CloudPreferencesSyncerEvent::InitialLoadCompleted
    }

    /// Would push local preference values to the cloud; nothing is pushed.
    pub fn maybe_sync_local_prefs_to_cloud(&mut self, _keys_to_sync: Vec<String>)
        ensures
            *final(self) == *old(self),
    {
    }
}

} // verus!
