//! Server-facing clients of a local-first build.

pub mod local_object_client;
