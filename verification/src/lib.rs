//! Local-first session, identity and crash-reporting models of the Warp terminal,
//! each function with a contract that states what it returns.

pub mod ai;
pub mod auth;
pub mod color;
pub mod crash_reporting;
pub mod server;
pub mod session_types;
pub mod settings;
pub mod terminal;
pub mod workspaces;
