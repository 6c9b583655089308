//! Workspace metadata.

pub mod update_manager;
