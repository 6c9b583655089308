//! Terminal-side models: block indices and the local-first shared-session surface.

pub mod shared_session;
pub mod view;

use vstd::prelude::*;

verus! {

/// The index of a block in a terminal's block list.
#[derive(Clone, Copy, Debug, PartialEq, Eq, Structural)]
pub struct BlockIndex {
    pub index: usize,
}

impl BlockIndex {
    /// The index of the first block.
    pub fn zero() -> (r: BlockIndex)
        ensures
            r.index == 0,
    {
        BlockIndex { index: 0 }
    }
}

} // verus!
