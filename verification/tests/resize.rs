use input::event_id::RESIZE;
use input::{EventId, F64Bits, GenericEvent, Input, Motion, ResizeEvent, TextEvent};

#[test]
fn test_input_resize() {
    let e = Input::Resize(0, 0);
    let x: Option<Input> = ResizeEvent::from_width_height(100, 100, &e);
    let y: Option<Input> = x
        .clone()
        .unwrap()
        .resize(|w, h| ResizeEvent::from_width_height(w, h, x.as_ref().unwrap()))
        .unwrap();
    assert_eq!(x, y);
}

#[test]
fn resize_reads_back_width_before_height() {
    let old = Input::Move(Motion::MouseCursor(F64Bits(0), F64Bits(0)));
    let e: Input = ResizeEvent::from_width_height(640, 480, &old).unwrap();
    assert_eq!(e, Input::Resize(640, 480));
    assert_eq!(e.event_id(), EventId(RESIZE));
    assert_eq!(e.resize_args(), Some([640, 480]));
    assert_eq!(e.resize(|w, h| w - h), Some(160));
}

#[test]
fn resize_takes_the_largest_sizes() {
    let old = Input::Resize(1, 1);
    let e: Input = ResizeEvent::from_width_height(u32::MAX, 0, &old).unwrap();
    assert_eq!(e.resize_args(), Some([u32::MAX, 0]));
}

#[test]
fn a_text_event_is_no_resize_event() {
    let old = Input::Resize(1, 2);
    let e: Input = TextEvent::from_text("hello", &old).unwrap();
    assert_eq!(e.resize(|w, h| (w, h)), None);
    assert_eq!(e.resize_args(), None);
}

#[test]
fn resize_does_not_call_the_closure_on_another_kind() {
    let e = Input::Focus(true);
    let mut called = false;
    let r = e.resize(|_, _| {
        called = true;
    });
    assert_eq!(r, None);
    assert!(!called);
}
