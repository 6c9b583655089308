//! Settings.

pub mod cloud_preferences_syncer;
