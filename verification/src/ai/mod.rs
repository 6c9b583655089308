//! Agent-mode state.

pub mod shared_session;
