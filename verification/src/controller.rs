//! Back-end agnostic controller events.

use vstd::prelude::*;
use crate::number::F64Bits;

verus! {

/// A button of a controller.
#[derive(Copy, Clone, PartialEq, Eq, Hash, Debug, Structural)]
pub struct ControllerButton {
    /// Which controller the button belongs to.
    pub id: i32,
    /// Which button of that controller it is.
    pub button: u8,
}

/// The position of one axis of a controller.
#[derive(Copy, Clone, PartialEq, Eq, Hash, Debug, Structural)]
pub struct ControllerAxisArgs {
    /// Which controller the axis belongs to.
    pub id: i32,
    /// Which axis of that controller it is.
    pub axis: u8,
    /// Where the axis stands.
    pub position: F64Bits,
}

} // verus!
