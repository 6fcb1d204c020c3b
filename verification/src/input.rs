//! The input events that most backends produce.

use vstd::prelude::*;
use crate::controller::ControllerAxisArgs;
use crate::controller::ControllerButton;
use crate::keyboard::Key;
use crate::mouse::MouseButton;
use crate::number::F64Bits;
use crate::touch::TouchArgs;

verus! {

/// Models each kind of button that a backend might report.
#[derive(Copy, Clone, PartialEq, Eq, Hash, Debug, Structural)]
pub enum Button {
    /// A keyboard button.
    Keyboard(Key),
    /// A mouse button.
    Mouse(MouseButton),
    /// A controller button.
    Controller(ControllerButton),
}

/// Models each kind of input motion, from mouse pointers to joysticks.
#[derive(Copy, Clone, PartialEq, Eq, Hash, Debug, Structural)]
pub enum Motion {
    /// Gives the mouse position (x, y) in window coordinates.
    MouseCursor(F64Bits, F64Bits),
    /// Gives the motion (x, y) of the mouse since its last position.
    MouseRelative(F64Bits, F64Bits),
    /// Gives the scroll in the x and y directions, in scroll ticks.
    MouseScroll(F64Bits, F64Bits),
    /// An axis of a joystick, or of a controller's analog stick, moved.
    ControllerAxis(ControllerAxisArgs),
    /// A surface was touched.
    Touch(TouchArgs),
}

/// Models the input events of a window.
///
/// Most backends use this enum instead of an event type of their own.
#[derive(Clone, PartialEq, Eq, Hash, Debug)]
pub enum Input {
    /// The user pressed a button.
    Press(Button),
    /// The user released a button.
    Release(Button),
    /// The user moved the mouse cursor or a joystick, or touched a surface.
    Move(Motion),
    /// Text, mostly whole characters as opposed to single key presses. Backends
    /// that cannot report single key presses may use it in their place.
    Text(String),
    /// The window was resized. Gives the new width and height in pixels.
    Resize(u32, u32),
    /// If true, the window gained focus; otherwise it lost focus.
    Focus(bool),
    /// If true, the cursor entered the window area; otherwise it left the
    /// window area.
    Cursor(bool),
}

/// Wraps a key into a button.
impl From<Key> for Button {
    fn from(key: Key) -> (button: Button) {
        Button::Keyboard(key)
    }
}

impl vstd::std_specs::convert::FromSpecImpl<Key> for Button {
    open spec fn obeys_from_spec() -> bool {
        true
    }

    open spec fn from_spec(key: Key) -> Button {
        Button::Keyboard(key)
    }
}

/// Wraps a mouse button into a button.
impl From<MouseButton> for Button {
    fn from(btn: MouseButton) -> (button: Button) {
        Button::Mouse(btn)
    }
}

impl vstd::std_specs::convert::FromSpecImpl<MouseButton> for Button {
    open spec fn obeys_from_spec() -> bool {
        true
    }

    open spec fn from_spec(btn: MouseButton) -> Button {
        Button::Mouse(btn)
    }
}

/// Wraps a controller button into a button.
impl From<ControllerButton> for Button {
    fn from(btn: ControllerButton) -> (button: Button) {
        Button::Controller(btn)
    }
}

impl vstd::std_specs::convert::FromSpecImpl<ControllerButton> for Button {
    open spec fn obeys_from_spec() -> bool {
        true
    }

    open spec fn from_spec(btn: ControllerButton) -> Button {
        Button::Controller(btn)
    }
}

/// Wraps the position of a controller axis into a motion.
impl From<ControllerAxisArgs> for Motion {
    fn from(args: ControllerAxisArgs) -> (motion: Motion) {
        Motion::ControllerAxis(args)
    }
}

impl vstd::std_specs::convert::FromSpecImpl<ControllerAxisArgs> for Motion {
    open spec fn obeys_from_spec() -> bool {
        true
    }

    open spec fn from_spec(args: ControllerAxisArgs) -> Motion {
        Motion::ControllerAxis(args)
    }
}

/// Wraps a motion into an input event.
impl From<Motion> for Input {
    fn from(motion: Motion) -> (input: Input) {
        Input::Move(motion)
    }
}

impl vstd::std_specs::convert::FromSpecImpl<Motion> for Input {
    open spec fn obeys_from_spec() -> bool {
        true
    }

    open spec fn from_spec(motion: Motion) -> Input {
        Input::Move(motion)
    }
}

} // verus!
