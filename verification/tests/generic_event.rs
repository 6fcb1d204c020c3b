use input::event_id::{
    AFTER_RENDER, CONTROLLER_AXIS, CURSOR, FOCUS, IDLE, MOUSE_CURSOR, MOUSE_RELATIVE,
    MOUSE_SCROLL, PRESS, RELEASE, RENDER, RESIZE, TEXT, TOUCH, UPDATE,
};
use input::{
    Button, ControllerAxisArgs, ControllerButton, EventId, F64Bits, GenericEvent, Input, Key,
    Motion, MouseButton, MouseCursorEvent, MouseRelativeEvent, MouseScrollEvent, Payload,
    ResizeEvent, TextEvent, Touch, TouchArgs,
};

fn a_touch() -> TouchArgs {
    TouchArgs {
        device: 1,
        id: 2,
        x: F64Bits(0.5f64.to_bits()),
        y: F64Bits(0.25f64.to_bits()),
        pressure: F64Bits(1.0f64.to_bits()),
        touch: Touch::Start,
    }
}

fn an_axis() -> ControllerAxisArgs {
    ControllerAxisArgs { id: 3, axis: 1, position: F64Bits(0.75f64.to_bits()) }
}

fn one_of_each() -> Vec<(Input, &'static str)> {
    vec![
        (Input::Cursor(true), CURSOR),
        (Input::Focus(false), FOCUS),
        (Input::Move(Motion::ControllerAxis(an_axis())), CONTROLLER_AXIS),
        (Input::Move(Motion::MouseCursor(F64Bits(1), F64Bits(2))), MOUSE_CURSOR),
        (Input::Move(Motion::MouseRelative(F64Bits(3), F64Bits(4))), MOUSE_RELATIVE),
        (Input::Move(Motion::MouseScroll(F64Bits(5), F64Bits(6))), MOUSE_SCROLL),
        (Input::Move(Motion::Touch(a_touch())), TOUCH),
        (Input::Press(Button::Keyboard(Key { code: 97 })), PRESS),
        (Input::Release(Button::Mouse(MouseButton::Left)), RELEASE),
        (Input::Resize(640, 480), RESIZE),
        (Input::Text("hello".to_string()), TEXT),
    ]
}

#[test]
fn event_ids_are_equal_when_their_names_are() {
    assert_eq!(EventId("piston/text"), EventId(TEXT));
    assert_eq!(EventId(RESIZE), EventId(RESIZE));
    assert_ne!(EventId(TEXT), EventId(RESIZE));
    assert_ne!(EventId(MOUSE_CURSOR), EventId(MOUSE_SCROLL));
    assert!(EventId(TEXT) == EventId(TEXT));
    assert!(!(EventId(TEXT) == EventId(TOUCH)));
    assert!(EventId(RENDER) != EventId(RESIZE));
    assert!(!(EventId(RENDER) != EventId(RENDER)));
    let name = String::from("piston/") + "text";
    assert_eq!(name.as_str(), TEXT);
}

#[test]
fn the_kinds_have_distinct_names() {
    let all = [
        AFTER_RENDER,
        CONTROLLER_AXIS,
        CURSOR,
        FOCUS,
        IDLE,
        MOUSE_SCROLL,
        MOUSE_RELATIVE,
        MOUSE_CURSOR,
        PRESS,
        RELEASE,
        RENDER,
        RESIZE,
        TEXT,
        TOUCH,
        UPDATE,
    ];
    for i in 0..all.len() {
        for j in 0..all.len() {
            assert_eq!(EventId(all[i]) == EventId(all[j]), i == j);
        }
    }
    assert_eq!(MOUSE_CURSOR, "piston/mouse_cursor");
    assert_eq!(RESIZE, "piston/resize");
    assert_eq!(TEXT, "piston/text");
}

#[test]
fn an_event_id_prints_its_name() {
    assert_eq!(format!("{:?}", EventId(TEXT)), "EventId(\"piston/text\")");
}

#[test]
fn input_reports_the_kind_of_each_variant() {
    for (event, name) in one_of_each() {
        assert_eq!(event.event_id(), EventId(name));
    }
}

#[test]
fn input_hands_out_the_arguments_of_each_variant() {
    assert_eq!(Input::Cursor(true).with_args(|p| p.flag()), Some(true));
    assert_eq!(Input::Focus(false).with_args(|p| p.flag()), Some(false));
    assert_eq!(
        Input::Move(Motion::ControllerAxis(an_axis())).with_args(|p| p.axis()),
        Some(an_axis())
    );
    assert_eq!(
        Input::Move(Motion::MouseCursor(F64Bits(1), F64Bits(2))).with_args(|p| p.pair()),
        Some((F64Bits(1), F64Bits(2)))
    );
    assert_eq!(
        Input::Move(Motion::MouseRelative(F64Bits(3), F64Bits(4))).with_args(|p| p.pair()),
        Some((F64Bits(3), F64Bits(4)))
    );
    assert_eq!(
        Input::Move(Motion::MouseScroll(F64Bits(5), F64Bits(6))).with_args(|p| p.pair()),
        Some((F64Bits(5), F64Bits(6)))
    );
    assert_eq!(Input::Move(Motion::Touch(a_touch())).with_args(|p| p.touch()), Some(a_touch()));
    assert_eq!(
        Input::Press(Button::Keyboard(Key { code: 97 })).with_args(|p| p.button()),
        Some(Button::Keyboard(Key { code: 97 }))
    );
    assert_eq!(
        Input::Release(Button::Mouse(MouseButton::Left)).with_args(|p| p.button()),
        Some(Button::Mouse(MouseButton::Left))
    );
    assert_eq!(Input::Resize(640, 480).with_args(|p| p.size()), Some((640, 480)));
    assert_eq!(
        Input::Text("hello".to_string()).with_args(|p| p.text().map(|t| t.to_string())),
        Some("hello".to_string())
    );
}

#[test]
fn input_is_rebuilt_from_its_kind_and_arguments() {
    let old = Input::Focus(true);
    for (event, _) in one_of_each() {
        let again = event.with_args(|p| Input::from_args(event.event_id(), p, &old));
        assert_eq!(again, Some(event));
    }
}

#[test]
fn input_has_no_events_of_other_kinds() {
    let old = Input::Focus(true);
    for name in [AFTER_RENDER, IDLE, RENDER, UPDATE, "piston/unheard_of", ""] {
        assert_eq!(Input::from_args(EventId(name), &Payload::Flag(true), &old), None);
        assert_eq!(Input::from_args(EventId(name), &Payload::Size(1, 2), &old), None);
    }
}

#[test]
fn input_builds_each_kind_from_its_arguments() {
    let old = Input::Resize(0, 0);
    assert_eq!(
        Input::from_args(EventId(CURSOR), &Payload::Flag(true), &old),
        Some(Input::Cursor(true))
    );
    assert_eq!(
        Input::from_args(EventId(FOCUS), &Payload::Flag(true), &old),
        Some(Input::Focus(true))
    );
    assert_eq!(
        Input::from_args(EventId(PRESS), &Payload::Button(Button::Mouse(MouseButton::X1)), &old),
        Some(Input::Press(Button::Mouse(MouseButton::X1)))
    );
    assert_eq!(
        Input::from_args(EventId(RELEASE), &Payload::Button(Button::Mouse(MouseButton::X1)), &old),
        Some(Input::Release(Button::Mouse(MouseButton::X1)))
    );
    assert_eq!(
        Input::from_args(EventId(MOUSE_SCROLL), &Payload::Pair(F64Bits(7), F64Bits(8)), &old),
        Some(Input::Move(Motion::MouseScroll(F64Bits(7), F64Bits(8))))
    );
    assert_eq!(
        Input::from_args(EventId(TEXT), &Payload::Text("abc"), &old),
        Some(Input::Text("abc".to_string()))
    );
}

#[test]
fn typed_constructors_never_fail_for_input() {
    for (old, _) in one_of_each() {
        let a: Option<Input> = MouseCursorEvent::from_xy(F64Bits(1), F64Bits(2), &old);
        let b: Option<Input> = MouseRelativeEvent::from_xy(F64Bits(1), F64Bits(2), &old);
        let c: Option<Input> = MouseScrollEvent::from_xy(F64Bits(1), F64Bits(2), &old);
        let d: Option<Input> = ResizeEvent::from_width_height(1, 2, &old);
        let e: Option<Input> = TextEvent::from_text("t", &old);
        assert_eq!(a, Some(Input::Move(Motion::MouseCursor(F64Bits(1), F64Bits(2)))));
        assert_eq!(b, Some(Input::Move(Motion::MouseRelative(F64Bits(1), F64Bits(2)))));
        assert_eq!(c, Some(Input::Move(Motion::MouseScroll(F64Bits(1), F64Bits(2)))));
        assert_eq!(d, Some(Input::Resize(1, 2)));
        assert_eq!(e, Some(Input::Text("t".to_string())));
    }
}

#[test]
fn events_made_one_from_another_depend_on_their_arguments_only() {
    let a = Input::Press(Button::Controller(ControllerButton { id: 0, button: 1 }));
    let b: Input = ResizeEvent::from_width_height(10, 20, &a).unwrap();
    let c: Input = TextEvent::from_text("next", &b).unwrap();
    let direct: Input = TextEvent::from_text("next", &a).unwrap();
    assert_eq!(c, direct);
    assert_eq!(b, Input::Resize(10, 20));
    assert_eq!(a, Input::Press(Button::Controller(ControllerButton { id: 0, button: 1 })));
}

#[test]
fn payload_gives_back_only_its_own_shape() {
    let flag = Payload::Flag(true);
    assert_eq!(flag.flag(), Some(true));
    assert_eq!(flag.pair(), None);
    assert_eq!(flag.size(), None);
    assert_eq!(flag.text(), None);
    assert_eq!(flag.button(), None);
    assert_eq!(flag.axis(), None);
    assert_eq!(flag.touch(), None);

    let pair = Payload::Pair(F64Bits(1), F64Bits(2));
    assert_eq!(pair.pair(), Some((F64Bits(1), F64Bits(2))));
    assert_eq!(pair.size(), None);
    assert_eq!(pair.flag(), None);

    let size = Payload::Size(3, 4);
    assert_eq!(size.size(), Some((3, 4)));
    assert_eq!(size.pair(), None);
    assert_eq!(size.text(), None);

    let text = Payload::Text("hi");
    assert_eq!(text.text(), Some("hi"));
    assert_eq!(text.size(), None);

    let button = Payload::Button(Button::Mouse(MouseButton::Right));
    assert_eq!(button.button(), Some(Button::Mouse(MouseButton::Right)));
    assert_eq!(button.flag(), None);

    let axis = Payload::Axis(an_axis());
    assert_eq!(axis.axis(), Some(an_axis()));
    assert_eq!(axis.touch(), None);

    let touch = Payload::Touch(a_touch());
    assert_eq!(touch.touch(), Some(a_touch()));
    assert_eq!(touch.axis(), None);
}

#[test]
fn buttons_and_motions_wrap_their_parts() {
    assert_eq!(Button::from(Key { code: 13 }), Button::Keyboard(Key { code: 13 }));
    assert_eq!(Button::from(MouseButton::Middle), Button::Mouse(MouseButton::Middle));
    assert_eq!(
        Button::from(ControllerButton { id: 1, button: 2 }),
        Button::Controller(ControllerButton { id: 1, button: 2 })
    );
    assert_eq!(Motion::from(an_axis()), Motion::ControllerAxis(an_axis()));
    assert_eq!(
        Input::from(Motion::MouseScroll(F64Bits(1), F64Bits(2))),
        Input::Move(Motion::MouseScroll(F64Bits(1), F64Bits(2)))
    );
    let button: Button = MouseButton::Left.into();
    assert_eq!(button, Button::Mouse(MouseButton::Left));
}

#[test]
fn each_kind_asks_for_one_shape() {
    let shapes = [
        Payload::Flag(true),
        Payload::Pair(F64Bits(1), F64Bits(2)),
        Payload::Size(3, 4),
        Payload::Text("t"),
        Payload::Button(Button::Mouse(MouseButton::Left)),
        Payload::Axis(an_axis()),
        Payload::Touch(a_touch()),
    ];
    let asked = [
        (CURSOR, 0),
        (FOCUS, 0),
        (MOUSE_CURSOR, 1),
        (MOUSE_RELATIVE, 1),
        (MOUSE_SCROLL, 1),
        (RESIZE, 2),
        (TEXT, 3),
        (PRESS, 4),
        (RELEASE, 4),
        (CONTROLLER_AXIS, 5),
        (TOUCH, 6),
    ];
    for (name, shape) in asked {
        for i in 0..shapes.len() {
            assert_eq!(shapes[i].fits_kind(EventId(name)), i == shape);
        }
    }
    for name in [AFTER_RENDER, IDLE, RENDER, UPDATE, "piston/unheard_of"] {
        for shape in shapes {
            assert!(shape.fits_kind(EventId(name)));
        }
    }
}

#[test]
fn the_arguments_of_an_input_fit_its_kind() {
    for (event, _) in one_of_each() {
        assert!(event.with_args(|p| p.fits_kind(event.event_id())));
    }
}
