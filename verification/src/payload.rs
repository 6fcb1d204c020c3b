//! The arguments of an event, as they travel between an event and the typed
//! traits that read and build it.

use vstd::prelude::*;
use crate::controller::ControllerAxisArgs;
use crate::event_id::CONTROLLER_AXIS;
use crate::event_id::CURSOR;
use crate::event_id::EventId;
use crate::event_id::FOCUS;
use crate::event_id::MOUSE_CURSOR;
use crate::event_id::MOUSE_RELATIVE;
use crate::event_id::MOUSE_SCROLL;
use crate::event_id::PRESS;
use crate::event_id::RELEASE;
use crate::event_id::RESIZE;
use crate::event_id::TEXT;
use crate::event_id::TOUCH;
use crate::event_id::lemma_kinds_distinct;
use crate::input::Button;
use crate::number::F64Bits;
use crate::touch::TouchArgs;

verus! {

/// The arguments of one event, borrowed from it for the time of a call.
///
/// There is one variant for each shape of arguments. The kind of an event
/// says which shape its arguments have: see [`fits`].
#[derive(Copy, Clone, Debug)]
pub enum Payload<'a> {
    /// A yes or a no.
    Flag(bool),
    /// A pair of coordinates, x before y.
    Pair(F64Bits, F64Bits),
    /// A width and a height, in this order.
    Size(u32, u32),
    /// Text.
    Text(&'a str),
    /// A button.
    Button(Button),
    /// The position of a controller axis.
    Axis(ControllerAxisArgs),
    /// A touch.
    Touch(TouchArgs),
}

/// What a [`Payload`] holds: the same, with text as a sequence of characters.
pub ghost enum Args {
    /// A yes or a no.
    Flag(bool),
    /// A pair of coordinates, x before y.
    Pair(F64Bits, F64Bits),
    /// A width and a height, in this order.
    Size(u32, u32),
    /// Text.
    Text(Seq<char>),
    /// A button.
    Button(Button),
    /// The position of a controller axis.
    Axis(ControllerAxisArgs),
    /// A touch.
    Touch(TouchArgs),
}

impl<'a> View for Payload<'a> {
    type V = Args;

    open spec fn view(&self) -> Args {
        match *self {
            Payload::Flag(on) => Args::Flag(on),
            Payload::Pair(x, y) => Args::Pair(x, y),
            Payload::Size(w, h) => Args::Size(w, h),
            Payload::Text(text) => Args::Text(text@),
            Payload::Button(button) => Args::Button(button),
            Payload::Axis(axis) => Args::Axis(axis),
            Payload::Touch(touch) => Args::Touch(touch),
        }
    }
}

/// Whether arguments have the shape that a kind of event asks for.
///
/// Each kind that this library reads or builds asks for one shape. A kind that
/// it does not asks for nothing.
pub open spec fn fits(kind: Seq<char>, args: Args) -> bool {
    &&& kind == CURSOR@ || kind == FOCUS@ ==> args is Flag
    &&& kind == MOUSE_CURSOR@ || kind == MOUSE_RELATIVE@ || kind == MOUSE_SCROLL@ ==> args is Pair
    &&& kind == RESIZE@ ==> args is Size
    &&& kind == TEXT@ ==> args is Text
    &&& kind == PRESS@ || kind == RELEASE@ ==> args is Button
    &&& kind == CONTROLLER_AXIS@ ==> args is Axis
    &&& kind == TOUCH@ ==> args is Touch
}

impl<'a> Payload<'a> {
    /// The flag, if this is one.
    pub fn flag(&self) -> (r: Option<bool>)
        ensures
            r == (match self@ {
                Args::Flag(on) => Some(on),
                _ => None,
            }),
    {
        match *self {
            Payload::Flag(on) => Some(on),
            _ => None,
        }
    }

    /// The two coordinates, if this is a pair.
    pub fn pair(&self) -> (r: Option<(F64Bits, F64Bits)>)
        ensures
            r == (match self@ {
                Args::Pair(x, y) => Some((x, y)),
                _ => None,
            }),
    {
        match *self {
            Payload::Pair(x, y) => Some((x, y)),
            _ => None,
        }
    }

    /// The width and the height, if this is a size.
    pub fn size(&self) -> (r: Option<(u32, u32)>)
        ensures
            r == (match self@ {
                Args::Size(w, h) => Some((w, h)),
                _ => None,
            }),
    {
        match *self {
            Payload::Size(w, h) => Some((w, h)),
            _ => None,
        }
    }

    /// The text, if this is text.
    pub fn text(&self) -> (r: Option<&'a str>)
        ensures
            match self@ {
                Args::Text(text) => r matches Some(t) && t@ == text,
                _ => r is None,
            },
    {
        match *self {
            Payload::Text(text) => Some(text),
            _ => None,
        }
    }

    /// The button, if this is one.
    pub fn button(&self) -> (r: Option<Button>)
        ensures
            r == (match self@ {
                Args::Button(button) => Some(button),
                _ => None,
            }),
    {
        match *self {
            Payload::Button(button) => Some(button),
            _ => None,
        }
    }

    /// The position of the controller axis, if this is one.
    pub fn axis(&self) -> (r: Option<ControllerAxisArgs>)
        ensures
            r == (match self@ {
                Args::Axis(axis) => Some(axis),
                _ => None,
            }),
    {
        match *self {
            Payload::Axis(axis) => Some(axis),
            _ => None,
        }
    }

    /// The touch, if this is one.
    pub fn touch(&self) -> (r: Option<TouchArgs>)
        ensures
            r == (match self@ {
                Args::Touch(touch) => Some(touch),
                _ => None,
            }),
    {
        match *self {
            Payload::Touch(touch) => Some(touch),
            _ => None,
        }
    }

    /// Whether these arguments have the shape that the given kind of event
    /// asks for.
    pub fn fits_kind(&self, id: EventId) -> (r: bool)
        ensures
            r == fits(id@, self@),
    {
        proof {
            lemma_kinds_distinct();
        }
        if id == EventId(CURSOR) || id == EventId(FOCUS) {
            self.flag().is_some()
        } else if id == EventId(MOUSE_CURSOR) || id == EventId(MOUSE_RELATIVE) || id == EventId(
            MOUSE_SCROLL,
        ) {
            self.pair().is_some()
        } else if id == EventId(RESIZE) {
            self.size().is_some()
        } else if id == EventId(TEXT) {
            self.text().is_some()
        } else if id == EventId(PRESS) || id == EventId(RELEASE) {
            self.button().is_some()
        } else if id == EventId(CONTROLLER_AXIS) {
            self.axis().is_some()
        } else if id == EventId(TOUCH) {
            self.touch().is_some()
        } else {
            true
        }
    }
}

} // verus!
