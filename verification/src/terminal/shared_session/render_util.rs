//! Colors of the shared-session indicator.

use vstd::prelude::*;

use crate::color::{neutral_gray, ColorU};

verus! {

/// The color of the shared-session indicator: opaque mid-gray, whatever the appearance.
pub fn shared_session_indicator_color() -> (c: ColorU)
    ensures
        c == neutral_gray(),
{
    ColorU::new(128, 128, 128, 255)
}

} // verus!
