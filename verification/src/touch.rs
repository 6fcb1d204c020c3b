//! Back-end agnostic touch events.

use vstd::prelude::*;
use crate::number::F64Bits;

verus! {

/// The stage of a touch.
#[derive(Copy, Clone, PartialEq, Eq, Hash, Debug, Structural)]
pub enum Touch {
    /// The touch began.
    Start,
    /// The touch moved.
    Move,
    /// The touch ended.
    End,
    /// The touch was cancelled.
    Cancel,
}

/// What a touch event reports.
#[derive(Copy, Clone, PartialEq, Eq, Hash, Debug, Structural)]
pub struct TouchArgs {
    /// The device that was touched.
    pub device: i64,
    /// Tells the touches of one device apart.
    pub id: i64,
    /// The horizontal position, as a fraction of the touched surface.
    pub x: F64Bits,
    /// The vertical position, as a fraction of the touched surface.
    pub y: F64Bits,
    /// How hard the surface is pressed.
    pub pressure: F64Bits,
    /// The stage of the touch.
    pub touch: Touch,
}

} // verus!
