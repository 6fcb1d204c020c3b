//! Tags that tell the kinds of events apart.

use vstd::prelude::*;

verus! {

/// Identifies the kind of an event, and with it the shape of the arguments
/// that an event of that kind carries.
///
/// Two identifiers denote the same kind exactly when they hold the same name:
/// the view of an identifier is its name.
#[derive(Copy, Clone, Debug)]
pub struct EventId(pub &'static str);

impl View for EventId {
    type V = Seq<char>;

    open spec fn view(&self) -> Seq<char> {
        self.0@
    }
}

/// Compares two string slices with `str`'s `==`, which holds exactly when the
/// two hold the same characters in the same order.
#[verifier::external_body]
fn same_text(a: &str, b: &str) -> (r: bool)
    ensures
        r == (a@ == b@),
{
    a == b
}

impl PartialEq for EventId {
    fn eq(&self, other: &EventId) -> (r: bool) {
        same_text(self.0, other.0)
    }

    fn ne(&self, other: &EventId) -> (r: bool) {
        !same_text(self.0, other.0)
    }
}

impl vstd::std_specs::cmp::PartialEqSpecImpl for EventId {
    open spec fn obeys_eq_spec() -> bool {
        true
    }

    open spec fn eq_spec(&self, other: &EventId) -> bool {
        self@ == other@
    }
}

impl Eq for EventId {

}

/// Name of the kind of event that follows the rendering of a frame.
pub const AFTER_RENDER: &'static str = "piston/after_render";

/// Name of the kind of event that reports the move of a controller axis.
pub const CONTROLLER_AXIS: &'static str = "piston/controller_axis";

/// Name of the kind of event that reports the cursor entering or leaving the window.
pub const CURSOR: &'static str = "piston/cursor";

/// Name of the kind of event that reports the window gaining or losing focus.
pub const FOCUS: &'static str = "piston/focus";

/// Name of the kind of event that reports idle time.
pub const IDLE: &'static str = "piston/idle";

/// Name of the kind of event that reports scrolling.
pub const MOUSE_SCROLL: &'static str = "piston/mouse_scroll";

/// Name of the kind of event that reports the motion of the mouse since its last position.
pub const MOUSE_RELATIVE: &'static str = "piston/mouse_relative";

/// Name of the kind of event that reports the position of the mouse cursor.
pub const MOUSE_CURSOR: &'static str = "piston/mouse_cursor";

/// Name of the kind of event that reports a button being pressed.
pub const PRESS: &'static str = "piston/press";

/// Name of the kind of event that reports a button being released.
pub const RELEASE: &'static str = "piston/release";

/// Name of the kind of event that asks for a frame to be rendered.
pub const RENDER: &'static str = "piston/render";

/// Name of the kind of event that reports a new window size.
pub const RESIZE: &'static str = "piston/resize";

/// Name of the kind of event that carries text.
pub const TEXT: &'static str = "piston/text";

/// Name of the kind of event that reports a touch.
pub const TOUCH: &'static str = "piston/touch";

/// Name of the kind of event that asks for the state to be updated.
pub const UPDATE: &'static str = "piston/update";

/// The place of a name among the kinds above, in the order in which they are
/// listed; 15 for every other name.
pub open spec fn kind_index(name: Seq<char>) -> int {
    if name == AFTER_RENDER@ {
        0
    } else if name == CONTROLLER_AXIS@ {
        1
    } else if name == CURSOR@ {
        2
    } else if name == FOCUS@ {
        3
    } else if name == IDLE@ {
        4
    } else if name == MOUSE_SCROLL@ {
        5
    } else if name == MOUSE_RELATIVE@ {
        6
    } else if name == MOUSE_CURSOR@ {
        7
    } else if name == PRESS@ {
        8
    } else if name == RELEASE@ {
        9
    } else if name == RENDER@ {
        10
    } else if name == RESIZE@ {
        11
    } else if name == TEXT@ {
        12
    } else if name == TOUCH@ {
        13
    } else if name == UPDATE@ {
        14
    } else {
        15
    }
}

/// No two of the kinds above share a name: each has a place of its own.
pub proof fn lemma_kinds_distinct()
    ensures
        kind_index(AFTER_RENDER@) == 0,
        kind_index(CONTROLLER_AXIS@) == 1,
        kind_index(CURSOR@) == 2,
        kind_index(FOCUS@) == 3,
        kind_index(IDLE@) == 4,
        kind_index(MOUSE_SCROLL@) == 5,
        kind_index(MOUSE_RELATIVE@) == 6,
        kind_index(MOUSE_CURSOR@) == 7,
        kind_index(PRESS@) == 8,
        kind_index(RELEASE@) == 9,
        kind_index(RENDER@) == 10,
        kind_index(RESIZE@) == 11,
        kind_index(TEXT@) == 12,
        kind_index(TOUCH@) == 13,
        kind_index(UPDATE@) == 14,
{
    reveal_strlit("piston/after_render");
    reveal_strlit("piston/controller_axis");
    reveal_strlit("piston/cursor");
    reveal_strlit("piston/focus");
    reveal_strlit("piston/idle");
    reveal_strlit("piston/mouse_scroll");
    reveal_strlit("piston/mouse_relative");
    reveal_strlit("piston/mouse_cursor");
    reveal_strlit("piston/press");
    reveal_strlit("piston/release");
    reveal_strlit("piston/render");
    reveal_strlit("piston/resize");
    reveal_strlit("piston/text");
    reveal_strlit("piston/touch");
    reveal_strlit("piston/update");
    assert(AFTER_RENDER@.len() == 19 && AFTER_RENDER@[7] == 'a');
    assert(CONTROLLER_AXIS@.len() == 22);
    assert(CURSOR@.len() == 13 && CURSOR@[7] == 'c');
    assert(FOCUS@.len() == 12 && FOCUS@[7] == 'f');
    assert(IDLE@.len() == 11 && IDLE@[7] == 'i');
    assert(MOUSE_SCROLL@.len() == 19 && MOUSE_SCROLL@[7] == 'm' && MOUSE_SCROLL@[13] == 's');
    assert(MOUSE_RELATIVE@.len() == 21);
    assert(MOUSE_CURSOR@.len() == 19 && MOUSE_CURSOR@[7] == 'm' && MOUSE_CURSOR@[13] == 'c');
    assert(PRESS@.len() == 12 && PRESS@[7] == 'p');
    assert(RELEASE@.len() == 14);
    assert(RENDER@.len() == 13 && RENDER@[7] == 'r' && RENDER@[9] == 'n');
    assert(RESIZE@.len() == 13 && RESIZE@[7] == 'r' && RESIZE@[9] == 's');
    assert(TEXT@.len() == 11 && TEXT@[7] == 't');
    assert(TOUCH@.len() == 12 && TOUCH@[7] == 't');
    assert(UPDATE@.len() == 13 && UPDATE@[7] == 'u');
}

} // verus!
