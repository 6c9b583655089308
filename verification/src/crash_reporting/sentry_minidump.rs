//! The minidump crash-reporting server, which this build does not have.

use vstd::prelude::*;

verus! {

/// Why the minidump server did not run.
#[derive(Clone, Copy, Debug, PartialEq, Eq, Structural)]
pub enum MinidumpServerError {
    /// The build has no minidump crash reporting.
    Unsupported,
}

impl MinidumpServerError {
    /// The message of the error.
    pub fn message(&self) -> (r: &'static str)
        ensures
            r@ == "Minidump crash reporting server is not supported in this build"@,
    {
        "Minidump crash reporting server is not supported in this build"
    }
}

/// Runs the minidump server on the given socket: it always fails, as unsupported.
pub fn run_server(_socket_path: &str) -> (r: Result<(), MinidumpServerError>)
    ensures
        r == Err::<(), MinidumpServerError>(MinidumpServerError::Unsupported),
{
    Err(MinidumpServerError::Unsupported)
}

} // verus!
