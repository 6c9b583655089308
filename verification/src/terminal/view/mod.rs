//! Terminal-view models.

pub mod shared_session;
