use user_input::{init, EventType, Key, RawEventKind, SimulateError, UserInput};

fn dispatcher() -> UserInput<u8, u8> {
    init()
}

#[test]
fn a_key_press_is_the_key_going_down() {
    let strokes = dispatcher().key(Key::KeyA, EventType::KeyPress);
    assert_eq!(strokes, Ok(vec![RawEventKind::KeyDown(Key::KeyA)]));
}

#[test]
fn a_key_release_is_the_key_going_up() {
    let strokes = dispatcher().key(Key::ShiftLeft, EventType::KeyRelease);
    assert_eq!(strokes, Ok(vec![RawEventKind::KeyUp(Key::ShiftLeft)]));
}

#[test]
fn a_key_click_is_down_and_then_up() {
    let strokes = dispatcher().key(Key::Unknown(77), EventType::KeyClick);
    assert_eq!(
        strokes,
        Ok(vec![
            RawEventKind::KeyDown(Key::Unknown(77)),
            RawEventKind::KeyUp(Key::Unknown(77)),
        ])
    );
}

#[test]
fn other_event_types_are_no_key_requests() {
    for evt_type in [
        EventType::ButtonPress,
        EventType::ButtonRelease,
        EventType::ButtonClick,
        EventType::MouseMove,
        EventType::MouseDragged,
        EventType::Wheel,
    ] {
        assert_eq!(dispatcher().key(Key::KeyA, evt_type), Err(SimulateError));
    }
}
