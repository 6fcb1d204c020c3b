//! What holds of the typed traits taken together, for every type of event.

use vstd::prelude::*;
use crate::event_id::MOUSE_CURSOR;
use crate::event_id::MOUSE_RELATIVE;
use crate::event_id::MOUSE_SCROLL;
use crate::event_id::RESIZE;
use crate::event_id::TEXT;
use crate::event_id::lemma_kinds_distinct;
use crate::generic_event::GenericEvent;
use crate::generic_event::made_from;
use crate::input::Input;
use crate::mouse::MouseCursorEvent;
use crate::mouse::MouseRelativeEvent;
use crate::mouse::MouseScrollEvent;
use crate::mouse::mouse_cursor_of;
use crate::mouse::mouse_relative_of;
use crate::mouse::mouse_scroll_of;
use crate::number::F64Bits;
use crate::payload::Args;
use crate::resize::ResizeEvent;
use crate::resize::resize_of;
use crate::text::TextEvent;
use crate::text::text_of;

verus! {

/// A mouse cursor event that `from_xy` made gives back, through
/// `mouse_cursor_args`, the position that it was made with.
pub proof fn lemma_mouse_cursor_round_trip<E: GenericEvent>(
    x: F64Bits,
    y: F64Bits,
    old_event: &E,
    e: E,
    r: Option<[F64Bits; 2]>,
)
    requires
        call_ensures(<E as MouseCursorEvent>::from_xy, (x, y, old_event), Some(e)),
        call_ensures(<E as MouseCursorEvent>::mouse_cursor_args, (&e,), r),
    ensures
        r matches Some(a) && a@ == seq![x, y],
{
}

/// A relative mouse event that `from_xy` made gives back, through
/// `mouse_relative_args`, the motion that it was made with.
pub proof fn lemma_mouse_relative_round_trip<E: GenericEvent>(
    x: F64Bits,
    y: F64Bits,
    old_event: &E,
    e: E,
    r: Option<[F64Bits; 2]>,
)
    requires
        call_ensures(<E as MouseRelativeEvent>::from_xy, (x, y, old_event), Some(e)),
        call_ensures(<E as MouseRelativeEvent>::mouse_relative_args, (&e,), r),
    ensures
        r matches Some(a) && a@ == seq![x, y],
{
}

/// A mouse scroll event that `from_xy` made gives back, through
/// `mouse_scroll_args`, the scroll that it was made with.
pub proof fn lemma_mouse_scroll_round_trip<E: GenericEvent>(
    x: F64Bits,
    y: F64Bits,
    old_event: &E,
    e: E,
    r: Option<[F64Bits; 2]>,
)
    requires
        call_ensures(<E as MouseScrollEvent>::from_xy, (x, y, old_event), Some(e)),
        call_ensures(<E as MouseScrollEvent>::mouse_scroll_args, (&e,), r),
    ensures
        r matches Some(a) && a@ == seq![x, y],
{
}

/// A resize event that `from_width_height` made gives back, through
/// `resize_args`, the width and the height that it was made with.
pub proof fn lemma_resize_round_trip<E: GenericEvent>(
    w: u32,
    h: u32,
    old_event: &E,
    e: E,
    r: Option<[u32; 2]>,
)
    requires
        call_ensures(<E as ResizeEvent>::from_width_height, (w, h, old_event), Some(e)),
        call_ensures(<E as ResizeEvent>::resize_args, (&e,), r),
    ensures
        r matches Some(a) && a@ == seq![w, h],
{
}

/// A text event that `from_text` made gives back, through `text_args`, the
/// text that it was made with.
pub proof fn lemma_text_round_trip<E: GenericEvent>(
    text: &str,
    old_event: &E,
    e: E,
    r: Option<String>,
)
    requires
        call_ensures(<E as TextEvent>::from_text, (text, old_event), Some(e)),
        call_ensures(<E as TextEvent>::text_args, (&e,), r),
    ensures
        r matches Some(s) && s@ == text@,
{
}

/// An event reads as the kind that it was made as and as no other: whatever
/// one of the typed traits reads from it, the event was made as the kind of
/// that trait, and an event made as the kind of one of them yields nothing to
/// the four others.
pub proof fn lemma_one_kind_only<E: GenericEvent>(
    e: &E,
    kind: Seq<char>,
    args: Args,
    old_event: &E,
)
    requires
        made_from(e, kind, args, old_event),
    ensures
        mouse_cursor_of(e) is Some ==> kind == MOUSE_CURSOR@,
        mouse_relative_of(e) is Some ==> kind == MOUSE_RELATIVE@,
        mouse_scroll_of(e) is Some ==> kind == MOUSE_SCROLL@,
        resize_of(e) is Some ==> kind == RESIZE@,
        text_of(e) is Some ==> kind == TEXT@,
        kind == MOUSE_CURSOR@ ==> mouse_relative_of(e) is None && mouse_scroll_of(e) is None
            && resize_of(e) is None && text_of(e) is None,
        kind == MOUSE_RELATIVE@ ==> mouse_cursor_of(e) is None && mouse_scroll_of(e) is None
            && resize_of(e) is None && text_of(e) is None,
        kind == MOUSE_SCROLL@ ==> mouse_cursor_of(e) is None && mouse_relative_of(e) is None
            && resize_of(e) is None && text_of(e) is None,
        kind == RESIZE@ ==> mouse_cursor_of(e) is None && mouse_relative_of(e) is None
            && mouse_scroll_of(e) is None && text_of(e) is None,
        kind == TEXT@ ==> mouse_cursor_of(e) is None && mouse_relative_of(e) is None
            && mouse_scroll_of(e) is None && resize_of(e) is None,
{
    lemma_kinds_distinct();
}

/// A text event that `from_text` made yields nothing to `resize_args`, and a
/// resize event that `from_width_height` made yields nothing to `text_args`.
pub proof fn lemma_text_is_no_resize<E: GenericEvent>(
    text: &str,
    w: u32,
    h: u32,
    old_event: &E,
    t: E,
    s: E,
    size: Option<[u32; 2]>,
    string: Option<String>,
)
    requires
        call_ensures(<E as TextEvent>::from_text, (text, old_event), Some(t)),
        call_ensures(<E as ResizeEvent>::resize_args, (&t,), size),
        call_ensures(<E as ResizeEvent>::from_width_height, (w, h, old_event), Some(s)),
        call_ensures(<E as TextEvent>::text_args, (&s,), string),
    ensures
        size is None,
        string is None,
{
    lemma_kinds_distinct();
}

/// None of the typed constructors returns `None` for `Input`, which has
/// events of every kind that they make.
pub proof fn lemma_input_constructors_total()
    ensures
        forall|x: F64Bits, y: F64Bits, old_event: &Input, r: Option<Input>|
            call_ensures(<Input as MouseCursorEvent>::from_xy, (x, y, old_event), r) ==> r is Some,
        forall|x: F64Bits, y: F64Bits, old_event: &Input, r: Option<Input>|
            call_ensures(<Input as MouseRelativeEvent>::from_xy, (x, y, old_event), r)
                ==> r is Some,
        forall|x: F64Bits, y: F64Bits, old_event: &Input, r: Option<Input>|
            call_ensures(<Input as MouseScrollEvent>::from_xy, (x, y, old_event), r) ==> r is Some,
        forall|w: u32, h: u32, old_event: &Input, r: Option<Input>|
            call_ensures(<Input as ResizeEvent>::from_width_height, (w, h, old_event), r)
                ==> r is Some,
        forall|text: &str, old_event: &Input, r: Option<Input>|
            call_ensures(<Input as TextEvent>::from_text, (text, old_event), r) ==> r is Some,
{
}

/// An event made by one typed constructor from an event that another typed
/// constructor made has the context of the event that the first was made
/// from: here a text event made from a resize event.
pub proof fn lemma_context_kept_twice<E: GenericEvent>(
    a: &E,
    w: u32,
    h: u32,
    b: E,
    text: &str,
    c: E,
)
    requires
        call_ensures(<E as ResizeEvent>::from_width_height, (w, h, a), Some(b)),
        call_ensures(<E as TextEvent>::from_text, (text, &b), Some(c)),
    ensures
        c.context() == a.context(),
        text_of(&c) == Some(text@),
{
}

} // verus!
