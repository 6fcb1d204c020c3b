//! Back-end agnostic keyboard keys.

use vstd::prelude::*;

verus! {

/// A key of the keyboard, named by its key code.
#[derive(Copy, Clone, PartialEq, Eq, Hash, Debug, Structural)]
pub struct Key {
    /// The code that the backend gives to the key.
    pub code: u32,
}

} // verus!
