//! Session permissions: a local terminal has no participants to grant anything to.

use vstd::prelude::*;

verus! {

/// Manages participants' permissions in a shared session; it holds no state.
#[derive(Clone, Copy, Debug, Default)]
pub struct SessionPermissionsManager;

impl SessionPermissionsManager {
    pub fn new() -> (r: Self) {
        SessionPermissionsManager
    }
}

} // verus!
