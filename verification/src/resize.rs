//! The event of a window that was resized.

use vstd::prelude::*;
use crate::event_id::EventId;
use crate::event_id::RESIZE;
use crate::event_id::lemma_kinds_distinct;
use crate::generic_event::GenericEvent;
use crate::generic_event::made_from;
use crate::payload::Args;
use crate::payload::Payload;

verus! {

/// The width and the height that an event reports, if it is a resize event.
pub open spec fn resize_of<E: GenericEvent>(e: &E) -> Option<(u32, u32)> {
    if e.kind() == RESIZE@ {
        match e.args() {
            Args::Size(w, h) => Some((w, h)),
            _ => None,
        }
    } else {
        None
    }
}

/// An event reports a size exactly when it is a resize event.
pub proof fn lemma_resize_of<E: GenericEvent>(e: &E)
    ensures
        resize_of(e) is Some <==> e.kind() == RESIZE@,
{
    e.lemma_args_fit();
}

/// An event that is triggered when the window is resized.
pub trait ResizeEvent: GenericEvent {
    /// Makes a resize event with the given width and height, and with the
    /// context of `old_event`.
    ///
    /// Returns `None` exactly when the type has no resize events.
    fn from_width_height(w: u32, h: u32, old_event: &Self) -> (r: Option<Self>)
        ensures
            r is Some <==> Self::represents(RESIZE@),
            r matches Some(e) ==> made_from(&e, RESIZE@, Args::Size(w, h), old_event),
    ;

    /// Calls the closure on the new width and height, if this is a resize
    /// event, and returns what it returned.
    ///
    /// Returns `None` exactly when this is an event of another kind; the
    /// closure is then not called.
    fn resize<U, F: FnOnce(u32, u32) -> U>(&self, f: F) -> (r: Option<U>)
        requires
            resize_of(self) matches Some((w, h)) ==> call_requires(f, (w, h)),
        ensures
            r is Some <==> self.kind() == RESIZE@,
            match resize_of(self) {
                Some((w, h)) => r matches Some(u) && call_ensures(f, (w, h), u),
                None => r is None,
            },
    ;

    /// Returns the new width and height, in this order, if this is a resize
    /// event, and `None` otherwise.
    fn resize_args(&self) -> (r: Option<[u32; 2]>)
        ensures
            r is Some <==> self.kind() == RESIZE@,
            match resize_of(self) {
                Some((w, h)) => r matches Some(a) && a@ == seq![w, h],
                None => r is None,
            },
    ;
}

impl<T: GenericEvent> ResizeEvent for T {
    fn from_width_height(w: u32, h: u32, old_event: &Self) -> (r: Option<Self>) {
        proof {
            lemma_kinds_distinct();
        }
        T::from_args(EventId(RESIZE), &Payload::Size(w, h), old_event)
    }

    fn resize<U, F: FnOnce(u32, u32) -> U>(&self, f: F) -> (r: Option<U>) {
        if self.event_id() != EventId(RESIZE) {
            return None;
        }
        proof {
            self.lemma_args_fit();
        }
        let read = |p: &Payload| -> (r: Option<U>)
            requires
                p@ == self.args(),
            ensures
                resize_of(self) matches Some((w, h)) && r matches Some(u) && call_ensures(f, (w, h), u),
            {
                match p.size() {
                    Some((w, h)) => Some(f(w, h)),
                    None => vstd::pervasive::unreached(),
                }
            };
        self.with_args(read)
    }

    fn resize_args(&self) -> (r: Option<[u32; 2]>) {
        proof {
            lemma_resize_of(self);
        }
        let pack = |w: u32, h: u32| -> (a: [u32; 2])
            ensures
                a@ == seq![w, h],
            {
                [w, h]
            };
        self.resize(pack)
    }
}

} // verus!
