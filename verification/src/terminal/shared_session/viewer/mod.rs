//! Viewer-side models of a shared session.

pub mod history_model;
