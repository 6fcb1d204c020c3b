//! What a type has to offer to be read and built as an event.

use vstd::prelude::*;
use crate::event_id::CONTROLLER_AXIS;
use crate::event_id::CURSOR;
use crate::event_id::EventId;
use crate::event_id::FOCUS;
use crate::event_id::MOUSE_CURSOR;
use crate::event_id::MOUSE_RELATIVE;
use crate::event_id::MOUSE_SCROLL;
use crate::event_id::PRESS;
use crate::event_id::RELEASE;
use crate::event_id::RESIZE;
use crate::event_id::TEXT;
use crate::event_id::TOUCH;
use crate::event_id::lemma_kinds_distinct;
use crate::input::Input;
use crate::input::Motion;
use crate::payload::Args;
use crate::payload::Payload;
use crate::payload::fits;

verus! {

/// Implemented once by every type of event.
///
/// An event is of one kind and carries the arguments of that kind. Whatever
/// else a type of event holds is its context. The typed traits of this
/// library are written against these three operations, and so are
/// implemented for every type that has them.
pub trait GenericEvent: Sized {
    /// What an event of this type holds besides its kind and its arguments.
    type Context;

    /// The name of the kind of the event.
    spec fn kind(&self) -> Seq<char>;

    /// The arguments that the event carries.
    spec fn args(&self) -> Args;

    /// What the event holds besides its kind and its arguments.
    spec fn context(&self) -> Self::Context;

    /// Whether this type has events of the kind.
    spec fn represents(kind: Seq<char>) -> bool;

    /// The arguments of an event have the shape that its kind asks for.
    proof fn lemma_args_fit(&self)
        ensures
            fits(self.kind(), self.args()),
    ;

    /// The kind of the event.
    fn event_id(&self) -> (id: EventId)
        ensures
            id@ == self.kind(),
    ;

    /// Calls the closure on the arguments of the event, which it may read
    /// until it returns, and gives back what it returned.
    fn with_args<U, F: FnOnce(&Payload) -> U>(&self, f: F) -> (r: U)
        requires
            forall|p: &Payload| p@ == self.args() ==> call_requires(f, (p,)),
        ensures
            exists|p: &Payload| p@ == self.args() && call_ensures(f, (p,), r),
    ;

    /// Makes an event of the given kind that carries the given arguments, with
    /// the context of `old_event`.
    ///
    /// Returns `None` exactly when this type has no events of that kind.
    fn from_args(event_id: EventId, args: &Payload, old_event: &Self) -> (r: Option<Self>)
        requires
            fits(event_id@, args@),
        ensures
            r is Some <==> Self::represents(event_id@),
            r matches Some(e) ==> e.kind() == event_id@ && e.args() == args@ && e.context()
                == old_event.context(),
    ;
}

/// Whether `e` is what `from_args` makes of a kind, arguments and an earlier
/// event: an event of that kind which carries those arguments and has the
/// context of the earlier one.
pub open spec fn made_from<E: GenericEvent>(
    e: &E,
    kind: Seq<char>,
    args: Args,
    old_event: &E,
) -> bool {
    &&& e.kind() == kind
    &&& e.args() == args
    &&& e.context() == old_event.context()
}

/// An event made from an event that was itself made from a first one has the
/// context of the first: building events one from another, of whatever
/// kinds, loses nothing of what they hold besides their arguments.
pub proof fn lemma_context_carried<E: GenericEvent>(
    a: &E,
    b: &E,
    c: &E,
    kind_b: Seq<char>,
    args_b: Args,
    kind_c: Seq<char>,
    args_c: Args,
)
    requires
        made_from(b, kind_b, args_b, a),
        made_from(c, kind_c, args_c, b),
    ensures
        c.context() == a.context(),
        made_from(c, kind_c, args_c, a),
{
}

impl GenericEvent for Input {
    type Context = ();

    open spec fn kind(&self) -> Seq<char> {
        match *self {
            Input::Cursor(_) => CURSOR@,
            Input::Focus(_) => FOCUS@,
            Input::Move(Motion::ControllerAxis(_)) => CONTROLLER_AXIS@,
            Input::Move(Motion::MouseCursor(_, _)) => MOUSE_CURSOR@,
            Input::Move(Motion::MouseRelative(_, _)) => MOUSE_RELATIVE@,
            Input::Move(Motion::MouseScroll(_, _)) => MOUSE_SCROLL@,
            Input::Move(Motion::Touch(_)) => TOUCH@,
            Input::Press(_) => PRESS@,
            Input::Release(_) => RELEASE@,
            Input::Resize(_, _) => RESIZE@,
            Input::Text(_) => TEXT@,
        }
    }

    open spec fn args(&self) -> Args {
        match *self {
            Input::Cursor(inside) => Args::Flag(inside),
            Input::Focus(focused) => Args::Flag(focused),
            Input::Move(Motion::ControllerAxis(axis)) => Args::Axis(axis),
            Input::Move(Motion::MouseCursor(x, y)) => Args::Pair(x, y),
            Input::Move(Motion::MouseRelative(x, y)) => Args::Pair(x, y),
            Input::Move(Motion::MouseScroll(x, y)) => Args::Pair(x, y),
            Input::Move(Motion::Touch(touch)) => Args::Touch(touch),
            Input::Press(button) => Args::Button(button),
            Input::Release(button) => Args::Button(button),
            Input::Resize(w, h) => Args::Size(w, h),
            Input::Text(text) => Args::Text(text@),
        }
    }

    open spec fn context(&self) -> () {
        ()
    }

    open spec fn represents(kind: Seq<char>) -> bool {
        ||| kind == CURSOR@
        ||| kind == FOCUS@
        ||| kind == CONTROLLER_AXIS@
        ||| kind == MOUSE_CURSOR@
        ||| kind == MOUSE_RELATIVE@
        ||| kind == MOUSE_SCROLL@
        ||| kind == TOUCH@
        ||| kind == PRESS@
        ||| kind == RELEASE@
        ||| kind == RESIZE@
        ||| kind == TEXT@
    }

    proof fn lemma_args_fit(&self) {
        lemma_kinds_distinct();
    }

    fn event_id(&self) -> (id: EventId) {
        match self {
            Input::Cursor(_) => EventId(CURSOR),
            Input::Focus(_) => EventId(FOCUS),
            Input::Move(Motion::ControllerAxis(_)) => EventId(CONTROLLER_AXIS),
            Input::Move(Motion::MouseCursor(_, _)) => EventId(MOUSE_CURSOR),
            Input::Move(Motion::MouseRelative(_, _)) => EventId(MOUSE_RELATIVE),
            Input::Move(Motion::MouseScroll(_, _)) => EventId(MOUSE_SCROLL),
            Input::Move(Motion::Touch(_)) => EventId(TOUCH),
            Input::Press(_) => EventId(PRESS),
            Input::Release(_) => EventId(RELEASE),
            Input::Resize(_, _) => EventId(RESIZE),
            Input::Text(_) => EventId(TEXT),
        }
    }

    fn with_args<U, F: FnOnce(&Payload) -> U>(&self, f: F) -> (r: U) {
        let payload = match self {
            Input::Cursor(inside) => Payload::Flag(*inside),
            Input::Focus(focused) => Payload::Flag(*focused),
            Input::Move(Motion::ControllerAxis(axis)) => Payload::Axis(*axis),
            Input::Move(Motion::MouseCursor(x, y)) => Payload::Pair(*x, *y),
            Input::Move(Motion::MouseRelative(x, y)) => Payload::Pair(*x, *y),
            Input::Move(Motion::MouseScroll(x, y)) => Payload::Pair(*x, *y),
            Input::Move(Motion::Touch(touch)) => Payload::Touch(*touch),
            Input::Press(button) => Payload::Button(*button),
            Input::Release(button) => Payload::Button(*button),
            Input::Resize(w, h) => Payload::Size(*w, *h),
            Input::Text(text) => Payload::Text(text.as_str()),
        };
        assert(payload@ == self.args());
        f(&payload)
    }

    fn from_args(event_id: EventId, args: &Payload, old_event: &Input) -> (r: Option<Input>) {
        proof {
            lemma_kinds_distinct();
        }
        if event_id == EventId(CURSOR) {
            match args.flag() {
                Some(inside) => Some(Input::Cursor(inside)),
                None => vstd::pervasive::unreached(),
            }
        } else if event_id == EventId(FOCUS) {
            match args.flag() {
                Some(focused) => Some(Input::Focus(focused)),
                None => vstd::pervasive::unreached(),
            }
        } else if event_id == EventId(CONTROLLER_AXIS) {
            match args.axis() {
                Some(axis) => Some(Input::Move(Motion::ControllerAxis(axis))),
                None => vstd::pervasive::unreached(),
            }
        } else if event_id == EventId(MOUSE_CURSOR) {
            match args.pair() {
                Some((x, y)) => Some(Input::Move(Motion::MouseCursor(x, y))),
                None => vstd::pervasive::unreached(),
            }
        } else if event_id == EventId(MOUSE_RELATIVE) {
            match args.pair() {
                Some((x, y)) => Some(Input::Move(Motion::MouseRelative(x, y))),
                None => vstd::pervasive::unreached(),
            }
        } else if event_id == EventId(MOUSE_SCROLL) {
            match args.pair() {
                Some((x, y)) => Some(Input::Move(Motion::MouseScroll(x, y))),
                None => vstd::pervasive::unreached(),
            }
        } else if event_id == EventId(TOUCH) {
            match args.touch() {
                Some(touch) => Some(Input::Move(Motion::Touch(touch))),
                None => vstd::pervasive::unreached(),
            }
        } else if event_id == EventId(PRESS) {
            match args.button() {
                Some(button) => Some(Input::Press(button)),
                None => vstd::pervasive::unreached(),
            }
        } else if event_id == EventId(RELEASE) {
            match args.button() {
                Some(button) => Some(Input::Release(button)),
                None => vstd::pervasive::unreached(),
            }
        } else if event_id == EventId(RESIZE) {
            match args.size() {
                Some((w, h)) => Some(Input::Resize(w, h)),
                None => vstd::pervasive::unreached(),
            }
        } else if event_id == EventId(TEXT) {
            match args.text() {
                Some(text) => Some(Input::Text(text.to_owned())),
                None => vstd::pervasive::unreached(),
            }
        } else {
            None
        }
    }
}

} // verus!
