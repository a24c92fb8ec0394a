use user_input::{
    init, Button, Delivery, EventType, InputEvent, InputEventData, Key, PingRequest, PingResponse,
    RawEvent, RawEventKind, StartAction, Target, UserInput, WheelDirection, WINDOW_EVENT,
};

/// A dispatcher whose hook handles are numbers and whose channels are names.
type Dispatcher = UserInput<u32, &'static str>;

fn key_down(key: Key, millis: u128) -> RawEvent {
    RawEvent { kind: RawEventKind::KeyDown(key), time: Some(millis) }
}

fn key_up(key: Key, millis: u128) -> RawEvent {
    RawEvent { kind: RawEventKind::KeyUp(key), time: Some(millis) }
}

fn labels(names: &[&str]) -> Vec<String> {
    names.iter().map(|name| name.to_string()).collect()
}

fn to_window(label: &str, event: InputEvent) -> Delivery {
    Delivery { target: Target::Window(label.to_string()), event }
}

fn to_channel(id: u32, event: InputEvent) -> Delivery {
    Delivery { target: Target::Channel(id), event }
}

/// The ids of the channels among the deliveries, in ascending order.
fn channel_ids(deliveries: &[Delivery]) -> Vec<u32> {
    let mut ids: Vec<u32> = Vec::new();
    for delivery in deliveries {
        if let Target::Channel(id) = delivery.target {
            ids.push(id);
        }
    }
    ids.sort();
    ids
}

/// Starts listening as a host does: registers the channel and, where the
/// dispatcher asks for it, reports a hook installed under `handle`.
fn start(dispatcher: &mut Dispatcher, id: u32, channel: &'static str, handle: u32) -> StartAction {
    let action = dispatcher.start_listening(id, channel);
    if action == StartAction::InstallHook {
        assert_eq!(dispatcher.finish_start::<()>(Ok(handle)), Ok(None));
    }
    action
}

#[test]
fn a_new_dispatcher_is_idle_and_delivers_nothing() {
    let dispatcher: Dispatcher = init();
    assert!(!dispatcher.is_listening());
    assert!(dispatcher.channel(0).is_none());
    assert!(dispatcher.dispatch(key_down(Key::KeyA, 1)).is_empty());
}

#[test]
fn ping_echoes_its_value() {
    let dispatcher: Dispatcher = init();
    let response = dispatcher.ping(PingRequest { value: Some("hello".to_string()) });
    assert_eq!(response.value, Some("hello".to_string()));
    let response = dispatcher.ping(PingRequest { value: None });
    assert_eq!(response.value, None);
}

#[test]
fn the_default_answer_to_a_ping_has_no_value() {
    assert_eq!(PingResponse::default().value, None);
}

#[test]
fn windows_receive_events_under_one_name() {
    assert_eq!(WINDOW_EVENT, "user-input");
}

#[test]
fn ping_does_not_touch_the_dispatcher() {
    let mut dispatcher: Dispatcher = init();
    start(&mut dispatcher, 1, "c1", 10);
    dispatcher.ping(PingRequest { value: Some("x".to_string()) });
    assert!(dispatcher.is_listening());
    assert_eq!(dispatcher.channel(1), Some(&"c1"));
}

#[test]
fn one_key_press_reaches_the_window_and_the_channel() {
    let mut dispatcher: Dispatcher = init();
    dispatcher.set_window_labels(labels(&["main"]));
    dispatcher.set_event_types(vec![EventType::KeyPress]);
    assert_eq!(dispatcher.start_listening(1, "c1"), StartAction::InstallHook);
    assert_eq!(dispatcher.finish_start::<()>(Ok(10)), Ok(None));
    assert!(dispatcher.is_listening());

    let expected = InputEvent {
        event_type: EventType::KeyPress,
        time: 1_700_000_000_000,
        data: InputEventData::Key(Key::KeyA),
    };
    let deliveries = dispatcher.dispatch(key_down(Key::KeyA, 1_700_000_000_000));
    assert_eq!(deliveries, vec![to_window("main", expected), to_channel(1, expected)]);

    let deliveries = dispatcher.dispatch(key_up(Key::KeyA, 1_700_000_000_050));
    assert!(deliveries.is_empty());

    assert_eq!(dispatcher.stop_listening(), Some(10));
    assert!(!dispatcher.is_listening());
}

#[test]
fn starting_twice_installs_one_hook_and_serves_both_subscribers() {
    let mut dispatcher: Dispatcher = init();
    dispatcher.set_event_types(vec![EventType::KeyPress]);
    assert_eq!(start(&mut dispatcher, 1, "c1", 10), StartAction::InstallHook);
    assert_eq!(dispatcher.start_listening(2, "c2"), StartAction::AlreadyListening);
    assert!(dispatcher.is_listening());
    assert_eq!(dispatcher.channel(1), Some(&"c1"));
    assert_eq!(dispatcher.channel(2), Some(&"c2"));

    let deliveries = dispatcher.dispatch(key_down(Key::KeyB, 5));
    assert_eq!(deliveries.len(), 2);
    assert_eq!(channel_ids(&deliveries), vec![1, 2]);
    let expected = InputEvent::from(key_down(Key::KeyB, 5));
    for delivery in &deliveries {
        assert_eq!(delivery.event, expected);
    }

    // The hook that was installed first is the one that is held.
    assert_eq!(dispatcher.stop_listening(), Some(10));
}

#[test]
fn a_second_hook_handle_is_handed_back() {
    let mut dispatcher: Dispatcher = init();
    start(&mut dispatcher, 1, "c1", 10);
    assert_eq!(dispatcher.finish_start::<()>(Ok(11)), Ok(Some(11)));
    assert!(dispatcher.is_listening());
    assert_eq!(dispatcher.stop_listening(), Some(10));
}

#[test]
fn a_failed_installation_leaves_the_dispatcher_idle() {
    let mut dispatcher: Dispatcher = init();
    dispatcher.set_event_types(vec![EventType::KeyPress]);
    assert_eq!(dispatcher.start_listening(1, "c1"), StartAction::InstallHook);
    assert_eq!(dispatcher.finish_start(Err("no permission")), Err("no permission"));
    assert!(!dispatcher.is_listening());
    assert!(dispatcher.dispatch(key_down(Key::KeyA, 1)).is_empty());
    // Nothing was tried again behind the caller's back: the next start asks
    // for a hook once more.
    assert_eq!(dispatcher.start_listening(2, "c2"), StartAction::InstallHook);
    assert_eq!(dispatcher.stop_listening(), None);
}

#[test]
fn a_failure_reported_while_listening_changes_nothing() {
    let mut dispatcher: Dispatcher = init();
    start(&mut dispatcher, 1, "c1", 10);
    assert_eq!(dispatcher.finish_start(Err(7u8)), Err(7u8));
    assert!(dispatcher.is_listening());
    assert_eq!(dispatcher.channel(1), Some(&"c1"));
}

#[test]
fn stopping_a_dispatcher_that_never_started_is_no_error() {
    let mut dispatcher: Dispatcher = init();
    assert_eq!(dispatcher.stop_listening(), None);
    assert!(!dispatcher.is_listening());
    assert_eq!(dispatcher.stop_listening(), None);
    assert!(!dispatcher.is_listening());
}

#[test]
fn stopping_twice_gives_the_handle_once() {
    let mut dispatcher: Dispatcher = init();
    start(&mut dispatcher, 1, "c1", 10);
    assert_eq!(dispatcher.stop_listening(), Some(10));
    assert_eq!(dispatcher.stop_listening(), None);
    assert!(!dispatcher.is_listening());
}

#[test]
fn an_event_is_delivered_exactly_when_its_type_is_in_the_filter() {
    let all = [
        EventType::KeyPress,
        EventType::KeyRelease,
        EventType::KeyClick,
        EventType::ButtonPress,
        EventType::ButtonRelease,
        EventType::ButtonClick,
        EventType::MouseMove,
        EventType::MouseDragged,
        EventType::Wheel,
    ];
    let raws = [
        key_down(Key::KeyA, 1),
        key_up(Key::KeyA, 2),
        RawEvent { kind: RawEventKind::KeyTyped(Key::KeyA), time: Some(3) },
        RawEvent { kind: RawEventKind::ButtonDown(Button::Left), time: Some(4) },
        RawEvent { kind: RawEventKind::ButtonUp(Button::Left), time: Some(5) },
        RawEvent { kind: RawEventKind::Click(Button::Left), time: Some(6) },
        RawEvent { kind: RawEventKind::PointerMoved { x: 0, y: 0 }, time: Some(7) },
        RawEvent { kind: RawEventKind::PointerDragged { x: 0, y: 0 }, time: Some(8) },
        RawEvent {
            kind: RawEventKind::Wheel { direction: WheelDirection::Up, magnitude: 1 },
            time: Some(9),
        },
        RawEvent { kind: RawEventKind::WheelDelta { delta_x: 1, delta_y: 0 }, time: Some(10) },
    ];
    for wanted in all {
        let mut dispatcher: Dispatcher = init();
        dispatcher.set_window_labels(labels(&["main"]));
        dispatcher.set_event_types(vec![wanted]);
        start(&mut dispatcher, 1, "c1", 10);
        for raw in raws {
            let event = InputEvent::from(raw);
            let deliveries = dispatcher.dispatch(raw);
            if event.event_type == wanted {
                assert_eq!(deliveries, vec![to_window("main", event), to_channel(1, event)]);
            } else {
                assert!(deliveries.is_empty());
            }
        }
    }
}

#[test]
fn the_empty_filter_delivers_nothing() {
    let mut dispatcher: Dispatcher = init();
    dispatcher.set_window_labels(labels(&["main"]));
    dispatcher.set_event_types(vec![EventType::KeyPress]);
    start(&mut dispatcher, 1, "c1", 10);
    assert_eq!(dispatcher.dispatch(key_down(Key::KeyA, 1)).len(), 2);
    dispatcher.set_event_types(vec![]);
    assert!(dispatcher.dispatch(key_down(Key::KeyA, 2)).is_empty());
    assert!(dispatcher.dispatch(key_up(Key::KeyA, 3)).is_empty());
    assert!(dispatcher.is_listening());
}

#[test]
fn the_filter_is_replaced_not_merged() {
    let mut dispatcher: Dispatcher = init();
    dispatcher.set_window_labels(labels(&["main"]));
    dispatcher.set_event_types(vec![EventType::KeyPress]);
    start(&mut dispatcher, 1, "c1", 10);
    dispatcher.set_event_types(vec![EventType::KeyRelease, EventType::KeyRelease]);
    assert!(dispatcher.dispatch(key_down(Key::KeyA, 1)).is_empty());
    assert_eq!(dispatcher.dispatch(key_up(Key::KeyA, 2)).len(), 2);
}

#[test]
fn the_labels_are_replaced_not_merged() {
    let mut dispatcher: Dispatcher = init();
    dispatcher.set_event_types(vec![EventType::KeyPress]);
    dispatcher.set_window_labels(labels(&["main", "overlay"]));
    start(&mut dispatcher, 1, "c1", 10);
    dispatcher.set_window_labels(labels(&["settings"]));
    let event = InputEvent::from(key_down(Key::KeyA, 1));
    assert_eq!(
        dispatcher.dispatch(key_down(Key::KeyA, 1)),
        vec![to_window("settings", event), to_channel(1, event)]
    );
    dispatcher.set_window_labels(vec![]);
    assert_eq!(dispatcher.dispatch(key_down(Key::KeyA, 1)), vec![to_channel(1, event)]);
}

#[test]
fn every_window_and_every_channel_gets_the_same_event_once() {
    let mut dispatcher: Dispatcher = init();
    dispatcher.set_window_labels(labels(&["main", "overlay", "main"]));
    dispatcher.set_event_types(vec![EventType::Wheel]);
    start(&mut dispatcher, 7, "c7", 10);
    start(&mut dispatcher, 3, "c3", 11);
    start(&mut dispatcher, 900, "c900", 12);
    start(&mut dispatcher, 4, "c4", 13);

    let raw = RawEvent {
        kind: RawEventKind::Wheel { direction: WheelDirection::Down, magnitude: 2 },
        time: Some(42),
    };
    let expected = InputEvent {
        event_type: EventType::Wheel,
        time: 42,
        data: InputEventData::DeltaPosition { delta_x: 0, delta_y: -2 },
    };
    let deliveries = dispatcher.dispatch(raw);
    assert_eq!(deliveries.len(), 3 + 4);
    assert_eq!(
        deliveries[..3].to_vec(),
        vec![
            to_window("main", expected),
            to_window("overlay", expected),
            to_window("main", expected),
        ]
    );
    assert_eq!(channel_ids(&deliveries[3..]), vec![3, 4, 7, 900]);
    assert_eq!(channel_ids(&deliveries[..3]), Vec::<u32>::new());
    for delivery in &deliveries {
        assert_eq!(delivery.event, expected);
    }
}

#[test]
fn a_channel_registered_again_under_its_id_replaces_the_first() {
    let mut dispatcher: Dispatcher = init();
    dispatcher.set_event_types(vec![EventType::KeyPress]);
    start(&mut dispatcher, 1, "old", 10);
    start(&mut dispatcher, 1, "new", 11);
    assert_eq!(dispatcher.channel(1), Some(&"new"));
    let event = InputEvent::from(key_down(Key::KeyA, 1));
    assert_eq!(dispatcher.dispatch(key_down(Key::KeyA, 1)), vec![to_channel(1, event)]);
}

#[test]
fn a_stop_clears_the_channels_and_keeps_labels_and_filter() {
    let mut dispatcher: Dispatcher = init();
    dispatcher.set_window_labels(labels(&["main"]));
    dispatcher.set_event_types(vec![EventType::KeyPress]);
    start(&mut dispatcher, 1, "c1", 10);
    start(&mut dispatcher, 2, "c2", 10);
    assert_eq!(dispatcher.stop_listening(), Some(10));
    assert!(dispatcher.channel(1).is_none());
    assert!(dispatcher.channel(2).is_none());
    assert!(dispatcher.dispatch(key_down(Key::KeyA, 1)).is_empty());

    assert_eq!(start(&mut dispatcher, 3, "c3", 20), StartAction::InstallHook);
    let event = InputEvent::from(key_down(Key::KeyA, 2));
    assert_eq!(
        dispatcher.dispatch(key_down(Key::KeyA, 2)),
        vec![to_window("main", event), to_channel(3, event)]
    );
    assert!(dispatcher.dispatch(key_up(Key::KeyA, 3)).is_empty());
    assert_eq!(dispatcher.stop_listening(), Some(20));
}

#[test]
fn labels_and_filter_can_be_set_while_listening() {
    let mut dispatcher: Dispatcher = init();
    start(&mut dispatcher, 1, "c1", 10);
    assert!(dispatcher.dispatch(key_down(Key::KeyA, 1)).is_empty());
    dispatcher.set_event_types(vec![EventType::KeyPress]);
    dispatcher.set_window_labels(labels(&["main"]));
    assert_eq!(dispatcher.dispatch(key_down(Key::KeyA, 2)).len(), 2);
    assert!(dispatcher.is_listening());
}

#[test]
fn hook_markers_are_never_delivered() {
    let mut dispatcher: Dispatcher = init();
    dispatcher.set_window_labels(labels(&["main"]));
    dispatcher.set_event_types(vec![
        EventType::KeyPress,
        EventType::KeyRelease,
        EventType::KeyClick,
        EventType::ButtonPress,
        EventType::ButtonRelease,
        EventType::ButtonClick,
        EventType::MouseMove,
        EventType::MouseDragged,
        EventType::Wheel,
    ]);
    start(&mut dispatcher, 1, "c1", 10);
    for kind in [RawEventKind::HookEnabled, RawEventKind::HookDisabled] {
        assert!(dispatcher.dispatch(RawEvent { kind, time: Some(1) }).is_empty());
    }
    // A scroll of no distance that the user made is delivered like any other.
    let scroll =
        RawEvent { kind: RawEventKind::WheelDelta { delta_x: 0, delta_y: 0 }, time: Some(1) };
    assert_eq!(dispatcher.dispatch(scroll).len(), 2);
}

#[test]
fn nothing_is_delivered_after_a_stop() {
    let mut dispatcher: Dispatcher = init();
    dispatcher.set_window_labels(labels(&["main"]));
    dispatcher.set_event_types(vec![EventType::KeyPress]);
    start(&mut dispatcher, 1, "c1", 10);
    dispatcher.stop_listening();
    assert!(dispatcher.dispatch(key_down(Key::KeyA, 1)).is_empty());
}

#[test]
fn a_label_that_names_no_window_is_accepted() {
    let mut dispatcher: Dispatcher = init();
    dispatcher.set_window_labels(labels(&["", "no such window"]));
    dispatcher.set_event_types(vec![EventType::KeyPress]);
    start(&mut dispatcher, 1, "c1", 10);
    let event = InputEvent::from(key_down(Key::KeyA, 1));
    assert_eq!(
        dispatcher.dispatch(key_down(Key::KeyA, 1)),
        vec![to_window("", event), to_window("no such window", event), to_channel(1, event)]
    );
}

#[test]
fn the_dispatcher_may_cycle_between_idle_and_listening() {
    let mut dispatcher: Dispatcher = init();
    dispatcher.set_event_types(vec![EventType::KeyPress]);
    for round in 0..5u32 {
        assert_eq!(start(&mut dispatcher, round, "c", 100 + round), StartAction::InstallHook);
        assert!(dispatcher.is_listening());
        assert_eq!(channel_ids(&dispatcher.dispatch(key_down(Key::KeyA, 1))), vec![round]);
        assert_eq!(dispatcher.stop_listening(), Some(100 + round));
        assert!(!dispatcher.is_listening());
    }
}
