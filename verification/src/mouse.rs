//! Back-end agnostic mouse events.

use vstd::prelude::*;
use crate::event_id::EventId;
use crate::event_id::MOUSE_CURSOR;
use crate::event_id::MOUSE_RELATIVE;
use crate::event_id::MOUSE_SCROLL;
use crate::event_id::lemma_kinds_distinct;
use crate::generic_event::GenericEvent;
use crate::generic_event::made_from;
use crate::number::F64Bits;
use crate::payload::Args;
use crate::payload::Payload;

verus! {

/// A button of the mouse.
#[derive(Copy, Clone, PartialEq, Eq, Ord, PartialOrd, Hash, Debug, Structural)]
pub enum MouseButton {
    /// Unknown mouse button.
    ///
    /// Backends report it for a button that has no name here.
    Unknown,
    /// Left mouse button.
    Left,
    /// Right mouse button.
    Right,
    /// Middle mouse button.
    Middle,
    /// Extra mouse button number 1.
    X1,
    /// Extra mouse button number 2.
    X2,
    /// Mouse button number 6.
    Button6,
    /// Mouse button number 7.
    Button7,
    /// Mouse button number 8.
    Button8,
}

/// The button that a number stands for: the buttons are numbered from 0 in
/// the order of their declaration, and every larger number stands for
/// `Unknown`.
pub open spec fn button_of_number(n: u32) -> MouseButton {
    match n {
        1 => MouseButton::Left,
        2 => MouseButton::Right,
        3 => MouseButton::Middle,
        4 => MouseButton::X1,
        5 => MouseButton::X2,
        6 => MouseButton::Button6,
        7 => MouseButton::Button7,
        8 => MouseButton::Button8,
        _ => MouseButton::Unknown,
    }
}

/// The number of a button: its place in the declaration, from 0.
pub open spec fn number_of_button(button: MouseButton) -> u32 {
    match button {
        MouseButton::Unknown => 0,
        MouseButton::Left => 1,
        MouseButton::Right => 2,
        MouseButton::Middle => 3,
        MouseButton::X1 => 4,
        MouseButton::X2 => 5,
        MouseButton::Button6 => 6,
        MouseButton::Button7 => 7,
        MouseButton::Button8 => 8,
    }
}

/// Makes a number into the mouse button that it stands for.
impl From<u32> for MouseButton {
    fn from(n: u32) -> (button: MouseButton) {
        match n {
            0 => MouseButton::Unknown,
            1 => MouseButton::Left,
            2 => MouseButton::Right,
            3 => MouseButton::Middle,
            4 => MouseButton::X1,
            5 => MouseButton::X2,
            6 => MouseButton::Button6,
            7 => MouseButton::Button7,
            8 => MouseButton::Button8,
            _ => MouseButton::Unknown,
        }
    }
}

impl vstd::std_specs::convert::FromSpecImpl<u32> for MouseButton {
    open spec fn obeys_from_spec() -> bool {
        true
    }

    open spec fn from_spec(n: u32) -> MouseButton {
        button_of_number(n)
    }
}

/// Makes a mouse button into its number.
impl From<MouseButton> for u32 {
    fn from(button: MouseButton) -> (n: u32) {
        match button {
            MouseButton::Unknown => 0,
            MouseButton::Left => 1,
            MouseButton::Right => 2,
            MouseButton::Middle => 3,
            MouseButton::X1 => 4,
            MouseButton::X2 => 5,
            MouseButton::Button6 => 6,
            MouseButton::Button7 => 7,
            MouseButton::Button8 => 8,
        }
    }
}

impl vstd::std_specs::convert::FromSpecImpl<MouseButton> for u32 {
    open spec fn obeys_from_spec() -> bool {
        true
    }

    open spec fn from_spec(button: MouseButton) -> u32 {
        number_of_button(button)
    }
}

/// A number up to 8 made into a button and back is the same number; a larger
/// one becomes `Unknown`, whose number is 0.
pub proof fn lemma_number_round_trip(n: u32)
    ensures
        n <= 8 ==> number_of_button(button_of_number(n)) == n,
        n > 8 ==> button_of_number(n) == MouseButton::Unknown,
        n > 8 ==> number_of_button(button_of_number(n)) == 0,
{
}

/// A button made into its number and back is the same button, and its number
/// is at most 8.
pub proof fn lemma_button_round_trip(button: MouseButton)
    ensures
        button_of_number(number_of_button(button)) == button,
        number_of_button(button) <= 8,
{
}

/// The pair of coordinates that an event carries, if it is of the given kind.
pub open spec fn pair_of<E: GenericEvent>(e: &E, kind: Seq<char>) -> Option<(F64Bits, F64Bits)> {
    if e.kind() == kind {
        match e.args() {
            Args::Pair(x, y) => Some((x, y)),
            _ => None,
        }
    } else {
        None
    }
}

/// Whether a name is that of one of the three kinds of mouse motion.
pub open spec fn is_mouse_motion(kind: Seq<char>) -> bool {
    kind == MOUSE_CURSOR@ || kind == MOUSE_RELATIVE@ || kind == MOUSE_SCROLL@
}

/// Calls the closure on the coordinates of the event if it is of the given
/// kind of mouse motion.
fn map_pair<E: GenericEvent, U, F: FnOnce(F64Bits, F64Bits) -> U>(e: &E, id: EventId, f: F) -> (r:
    Option<U>)
    requires
        is_mouse_motion(id@),
        pair_of(e, id@) matches Some((x, y)) ==> call_requires(f, (x, y)),
    ensures
        r is Some <==> e.kind() == id@,
        match pair_of(e, id@) {
            Some((x, y)) => r matches Some(u) && call_ensures(f, (x, y), u),
            None => r is None,
        },
{
    if e.event_id() != id {
        return None;
    }
    proof {
        e.lemma_args_fit();
    }
    let read = |p: &Payload| -> (r: Option<U>)
        requires
            p@ == e.args(),
        ensures
            pair_of(e, id@) matches Some((x, y)) && r matches Some(u) && call_ensures(f, (x, y), u),
        {
            match p.pair() {
                Some((x, y)) => Some(f(x, y)),
                None => vstd::pervasive::unreached(),
            }
        };
    e.with_args(read)
}

/// The two coordinates as an array, x before y.
fn pair_array(x: F64Bits, y: F64Bits) -> (a: [F64Bits; 2])
    ensures
        a@ == seq![x, y],
{
    [x, y]
}

/// The position that an event reports, if it is a mouse cursor event.
pub open spec fn mouse_cursor_of<E: GenericEvent>(e: &E) -> Option<(F64Bits, F64Bits)> {
    pair_of(e, MOUSE_CURSOR@)
}

/// An event that gives the position of the mouse cursor in window
/// coordinates.
pub trait MouseCursorEvent: GenericEvent {
    /// Makes a mouse cursor event at the given position, with the context of
    /// `old_event`.
    ///
    /// Returns `None` exactly when the type has no mouse cursor events.
    fn from_xy(x: F64Bits, y: F64Bits, old_event: &Self) -> (r: Option<Self>)
        ensures
            r is Some <==> Self::represents(MOUSE_CURSOR@),
            r matches Some(e) ==> made_from(&e, MOUSE_CURSOR@, Args::Pair(x, y), old_event),
    ;

    /// Calls the closure on the (x, y) position of the cursor, if this is a
    /// mouse cursor event, and returns what it returned.
    ///
    /// Returns `None` exactly when this is an event of another kind; the
    /// closure is then not called.
    fn mouse_cursor<U, F: FnOnce(F64Bits, F64Bits) -> U>(&self, f: F) -> (r: Option<U>)
        requires
            mouse_cursor_of(self) matches Some((x, y)) ==> call_requires(f, (x, y)),
        ensures
            r is Some <==> self.kind() == MOUSE_CURSOR@,
            match mouse_cursor_of(self) {
                Some((x, y)) => r matches Some(u) && call_ensures(f, (x, y), u),
                None => r is None,
            },
    ;

    /// Returns the (x, y) position of the cursor, if this is a mouse cursor
    /// event, and `None` otherwise.
    fn mouse_cursor_args(&self) -> (r: Option<[F64Bits; 2]>)
        ensures
            r is Some <==> self.kind() == MOUSE_CURSOR@,
            match mouse_cursor_of(self) {
                Some((x, y)) => r matches Some(a) && a@ == seq![x, y],
                None => r is None,
            },
    ;
}

impl<T: GenericEvent> MouseCursorEvent for T {
    fn from_xy(x: F64Bits, y: F64Bits, old_event: &Self) -> (r: Option<Self>) {
        proof {
            lemma_kinds_distinct();
        }
        T::from_args(EventId(MOUSE_CURSOR), &Payload::Pair(x, y), old_event)
    }

    fn mouse_cursor<U, F: FnOnce(F64Bits, F64Bits) -> U>(&self, f: F) -> (r: Option<U>) {
        map_pair(self, EventId(MOUSE_CURSOR), f)
    }

    fn mouse_cursor_args(&self) -> (r: Option<[F64Bits; 2]>) {
        map_pair(self, EventId(MOUSE_CURSOR), pair_array)
    }
}

/// The motion that an event reports, if it is a relative mouse event.
pub open spec fn mouse_relative_of<E: GenericEvent>(e: &E) -> Option<(F64Bits, F64Bits)> {
    pair_of(e, MOUSE_RELATIVE@)
}

/// An event that gives the motion of the mouse cursor since its last
/// position.
pub trait MouseRelativeEvent: GenericEvent {
    /// Makes a relative mouse event with the given motion, with the context
    /// of `old_event`.
    ///
    /// Returns `None` exactly when the type has no relative mouse events.
    fn from_xy(x: F64Bits, y: F64Bits, old_event: &Self) -> (r: Option<Self>)
        ensures
            r is Some <==> Self::represents(MOUSE_RELATIVE@),
            r matches Some(e) ==> made_from(&e, MOUSE_RELATIVE@, Args::Pair(x, y), old_event),
    ;

    /// Calls the closure on the (x, y) motion of the mouse, if this is a
    /// relative mouse event, and returns what it returned.
    ///
    /// Returns `None` exactly when this is an event of another kind; the
    /// closure is then not called.
    fn mouse_relative<U, F: FnOnce(F64Bits, F64Bits) -> U>(&self, f: F) -> (r: Option<U>)
        requires
            mouse_relative_of(self) matches Some((x, y)) ==> call_requires(f, (x, y)),
        ensures
            r is Some <==> self.kind() == MOUSE_RELATIVE@,
            match mouse_relative_of(self) {
                Some((x, y)) => r matches Some(u) && call_ensures(f, (x, y), u),
                None => r is None,
            },
    ;

    /// Returns the (x, y) motion of the mouse, if this is a relative mouse
    /// event, and `None` otherwise.
    fn mouse_relative_args(&self) -> (r: Option<[F64Bits; 2]>)
        ensures
            r is Some <==> self.kind() == MOUSE_RELATIVE@,
            match mouse_relative_of(self) {
                Some((x, y)) => r matches Some(a) && a@ == seq![x, y],
                None => r is None,
            },
    ;
}

impl<T: GenericEvent> MouseRelativeEvent for T {
    fn from_xy(x: F64Bits, y: F64Bits, old_event: &Self) -> (r: Option<Self>) {
        proof {
            lemma_kinds_distinct();
        }
        T::from_args(EventId(MOUSE_RELATIVE), &Payload::Pair(x, y), old_event)
    }

    fn mouse_relative<U, F: FnOnce(F64Bits, F64Bits) -> U>(&self, f: F) -> (r: Option<U>) {
        map_pair(self, EventId(MOUSE_RELATIVE), f)
    }

    fn mouse_relative_args(&self) -> (r: Option<[F64Bits; 2]>) {
        map_pair(self, EventId(MOUSE_RELATIVE), pair_array)
    }
}

/// The scroll that an event reports, if it is a mouse scroll event.
pub open spec fn mouse_scroll_of<E: GenericEvent>(e: &E) -> Option<(F64Bits, F64Bits)> {
    pair_of(e, MOUSE_SCROLL@)
}

/// An event that gives the scroll in the x and y directions.
///
/// Most mice scroll in the y direction only. Touch pads and ball mice scroll
/// in the x direction too, so the event gives both. The backend decides on
/// the unit.
pub trait MouseScrollEvent: GenericEvent {
    /// Makes a mouse scroll event with the given scroll, with the context of
    /// `old_event`.
    ///
    /// Returns `None` exactly when the type has no mouse scroll events.
    fn from_xy(x: F64Bits, y: F64Bits, old_event: &Self) -> (r: Option<Self>)
        ensures
            r is Some <==> Self::represents(MOUSE_SCROLL@),
            r matches Some(e) ==> made_from(&e, MOUSE_SCROLL@, Args::Pair(x, y), old_event),
    ;

    /// Calls the closure on the (x, y) scroll, if this is a mouse scroll
    /// event, and returns what it returned.
    ///
    /// Returns `None` exactly when this is an event of another kind; the
    /// closure is then not called.
    fn mouse_scroll<U, F: FnOnce(F64Bits, F64Bits) -> U>(&self, f: F) -> (r: Option<U>)
        requires
            mouse_scroll_of(self) matches Some((x, y)) ==> call_requires(f, (x, y)),
        ensures
            r is Some <==> self.kind() == MOUSE_SCROLL@,
            match mouse_scroll_of(self) {
                Some((x, y)) => r matches Some(u) && call_ensures(f, (x, y), u),
                None => r is None,
            },
    ;

    /// Returns the (x, y) scroll, if this is a mouse scroll event, and `None`
    /// otherwise.
    fn mouse_scroll_args(&self) -> (r: Option<[F64Bits; 2]>)
        ensures
            r is Some <==> self.kind() == MOUSE_SCROLL@,
            match mouse_scroll_of(self) {
                Some((x, y)) => r matches Some(a) && a@ == seq![x, y],
                None => r is None,
            },
    ;
}

impl<T: GenericEvent> MouseScrollEvent for T {
    fn from_xy(x: F64Bits, y: F64Bits, old_event: &Self) -> (r: Option<Self>) {
        proof {
            lemma_kinds_distinct();
        }
        T::from_args(EventId(MOUSE_SCROLL), &Payload::Pair(x, y), old_event)
    }

    fn mouse_scroll<U, F: FnOnce(F64Bits, F64Bits) -> U>(&self, f: F) -> (r: Option<U>) {
        map_pair(self, EventId(MOUSE_SCROLL), f)
    }

    fn mouse_scroll_args(&self) -> (r: Option<[F64Bits; 2]>) {
        map_pair(self, EventId(MOUSE_SCROLL), pair_array)
    }
}

} // verus!
