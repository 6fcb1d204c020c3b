//! The event of text that the user entered.

use vstd::prelude::*;
use crate::event_id::EventId;
use crate::event_id::TEXT;
use crate::event_id::lemma_kinds_distinct;
use crate::generic_event::GenericEvent;
use crate::generic_event::made_from;
use crate::payload::Args;
use crate::payload::Payload;

verus! {

/// The text that an event carries, if it is a text event.
pub open spec fn text_of<E: GenericEvent>(e: &E) -> Option<Seq<char>> {
    if e.kind() == TEXT@ {
        match e.args() {
            Args::Text(text) => Some(text),
            _ => None,
        }
    } else {
        None
    }
}

/// An event carries text exactly when it is a text event.
pub proof fn lemma_text_of<E: GenericEvent>(e: &E)
    ensures
        text_of(e) is Some <==> e.kind() == TEXT@,
{
    e.lemma_args_fit();
}

/// An event that gives text from the user, such as a character.
pub trait TextEvent: GenericEvent {
    /// Makes a text event that carries the given text, with the context of
    /// `old_event`.
    ///
    /// Returns `None` exactly when the type has no text events.
    fn from_text(text: &str, old_event: &Self) -> (r: Option<Self>)
        ensures
            r is Some <==> Self::represents(TEXT@),
            r matches Some(e) ==> made_from(&e, TEXT@, Args::Text(text@), old_event),
    ;

    /// Calls the closure on the text, if this is a text event, and returns
    /// what it returned.
    ///
    /// Returns `None` exactly when this is an event of another kind; the
    /// closure is then not called.
    fn text<U, F: FnOnce(&str) -> U>(&self, f: F) -> (r: Option<U>)
        requires
            text_of(self) matches Some(t) ==> forall|s: &str| s@ == t ==> call_requires(f, (s,)),
        ensures
            r is Some <==> self.kind() == TEXT@,
            match text_of(self) {
                Some(t) => r matches Some(u) && exists|s: &str| s@ == t && call_ensures(f, (s,), u),
                None => r is None,
            },
    ;

    /// Returns the text, if this is a text event, and `None` otherwise.
    fn text_args(&self) -> (r: Option<String>)
        ensures
            r is Some <==> self.kind() == TEXT@,
            match text_of(self) {
                Some(t) => r matches Some(s) && s@ == t,
                None => r is None,
            },
    ;
}

impl<T: GenericEvent> TextEvent for T {
    fn from_text(text: &str, old_event: &Self) -> (r: Option<Self>) {
        proof {
            lemma_kinds_distinct();
        }
        T::from_args(EventId(TEXT), &Payload::Text(text), old_event)
    }

    fn text<U, F: FnOnce(&str) -> U>(&self, f: F) -> (r: Option<U>) {
        if self.event_id() != EventId(TEXT) {
            return None;
        }
        proof {
            self.lemma_args_fit();
        }
        let read = |p: &Payload| -> (r: Option<U>)
            requires
                p@ == self.args(),
            ensures
                text_of(self) matches Some(t) && r matches Some(u) && exists|s: &str|
                    s@ == t && call_ensures(f, (s,), u),
            {
                match p.text() {
                    Some(text) => Some(f(text)),
                    None => vstd::pervasive::unreached(),
                }
            };
        self.with_args(read)
    }

    fn text_args(&self) -> (r: Option<String>) {
        proof {
            lemma_text_of(self);
        }
        let copy = |text: &str| -> (s: String)
            ensures
                s@ == text@,
            {
                text.to_owned()
            };
        self.text(copy)
    }
}

} // verus!
