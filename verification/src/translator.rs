//! The translation of raw events into the uniform event model.
//!
//! The translation is total: every raw event has exactly one translation.
//! Nothing here reads a clock or any other state, so the translation of an
//! event depends on that event alone.

use vstd::prelude::*;
use vstd::std_specs::convert::FromSpecImpl;

use crate::models::{EventType, InputEvent, InputEventData};
use crate::raw::{RawEvent, RawEventKind, WheelDirection};

verus! {

/// The tag under which a raw event is reported: a key that was typed counts
/// as released, a click as a button released, and a marker of the hook's own
/// life falls back to `Wheel`.
pub open spec fn event_type_of(kind: RawEventKind) -> EventType {
    match kind {
        RawEventKind::KeyDown(_) => EventType::KeyPress,
        RawEventKind::KeyUp(_) | RawEventKind::KeyTyped(_) => EventType::KeyRelease,
        RawEventKind::ButtonDown(_) => EventType::ButtonPress,
        RawEventKind::ButtonUp(_) | RawEventKind::Click(_) => EventType::ButtonRelease,
        RawEventKind::PointerMoved { .. } => EventType::MouseMove,
        RawEventKind::PointerDragged { .. } => EventType::MouseDragged,
        RawEventKind::Wheel { .. } | RawEventKind::WheelDelta { .. } => EventType::Wheel,
        RawEventKind::HookEnabled | RawEventKind::HookDisabled => EventType::Wheel,
    }
}

/// The signed scroll distance of a wheel turned by `magnitude`: up and right
/// count as positive, down and left as negative.
pub open spec fn wheel_delta(direction: WheelDirection, magnitude: u32) -> InputEventData {
    match direction {
        WheelDirection::Up => InputEventData::DeltaPosition {
            delta_x: 0,
            delta_y: magnitude as i64,
        },
        WheelDirection::Down => InputEventData::DeltaPosition {
            delta_x: 0,
            delta_y: (-(magnitude as int)) as i64,
        },
        WheelDirection::Left => InputEventData::DeltaPosition {
            delta_x: (-(magnitude as int)) as i64,
            delta_y: 0,
        },
        WheelDirection::Right => InputEventData::DeltaPosition {
            delta_x: magnitude as i64,
            delta_y: 0,
        },
    }
}

/// What a raw event carries once translated. A marker of the hook's own life
/// falls back to a scroll of no distance.
pub open spec fn data_of(kind: RawEventKind) -> InputEventData {
    match kind {
        RawEventKind::KeyDown(key) | RawEventKind::KeyUp(key) | RawEventKind::KeyTyped(key) => {
            InputEventData::Key(key)
        },
        RawEventKind::ButtonDown(button)
        | RawEventKind::ButtonUp(button)
        | RawEventKind::Click(button) => InputEventData::Button(button),
        RawEventKind::PointerMoved { x, y } | RawEventKind::PointerDragged { x, y } => {
            InputEventData::Position { x, y }
        },
        RawEventKind::Wheel { direction, magnitude } => wheel_delta(direction, magnitude),
        RawEventKind::WheelDelta { delta_x, delta_y } => InputEventData::DeltaPosition {
            delta_x,
            delta_y,
        },
        RawEventKind::HookEnabled | RawEventKind::HookDisabled => InputEventData::DeltaPosition {
            delta_x: 0,
            delta_y: 0,
        },
    }
}

/// The time of an event: the clock reading, or zero where the clock stood
/// before the epoch.
pub open spec fn time_of(reading: Option<u128>) -> u128 {
    match reading {
        Some(millis) => millis,
        None => 0,
    }
}

/// The translation of a raw event.
pub open spec fn translate(raw: RawEvent) -> InputEvent {
    InputEvent {
        event_type: event_type_of(raw.kind),
        time: time_of(raw.time),
        data: data_of(raw.kind),
    }
}

/// The translation is determined by the raw event. Two raw events that
/// report the same happening translate to the same tag and the same data,
/// whenever they arrived. Their times stand in the order of the clock
/// readings, a reading before the epoch being the earliest of all. With
/// equal readings the translations are equal.
pub proof fn lemma_translation_is_determined(first: RawEvent, second: RawEvent)
    requires
        first.kind == second.kind,
    ensures
        translate(first).event_type == translate(second).event_type,
        translate(first).data == translate(second).data,
        first.time == second.time ==> translate(first) == translate(second),
        first.time is None ==> translate(first).time <= translate(second).time,
        first.time matches Some(earlier) && second.time matches Some(later) && earlier <= later
            ==> translate(first).time <= translate(second).time,
{
}

fn scroll_distance(direction: WheelDirection, magnitude: u32) -> (data: InputEventData)
    ensures
        data == wheel_delta(direction, magnitude),
{
    let distance: i64 = magnitude as i64;
    match direction {
        WheelDirection::Up => InputEventData::DeltaPosition { delta_x: 0, delta_y: distance },
        WheelDirection::Down => InputEventData::DeltaPosition { delta_x: 0, delta_y: -distance },
        WheelDirection::Left => InputEventData::DeltaPosition { delta_x: -distance, delta_y: 0 },
        WheelDirection::Right => InputEventData::DeltaPosition { delta_x: distance, delta_y: 0 },
    }
}

impl From<RawEvent> for InputEvent {
    /// Translates a raw event. The event's tag and data follow from what
    /// happened, its time from the clock reading.
    fn from(raw: RawEvent) -> (event: InputEvent) {
        let data = match raw.kind {
            RawEventKind::ButtonDown(button)
            | RawEventKind::ButtonUp(button)
            | RawEventKind::Click(button) => InputEventData::Button(button),
            RawEventKind::PointerMoved { x, y } | RawEventKind::PointerDragged { x, y } => {
                InputEventData::Position { x, y }
            },
            RawEventKind::Wheel { direction, magnitude } => scroll_distance(direction, magnitude),
            RawEventKind::WheelDelta { delta_x, delta_y } => InputEventData::DeltaPosition {
                delta_x,
                delta_y,
            },
            RawEventKind::KeyDown(key) | RawEventKind::KeyUp(key) | RawEventKind::KeyTyped(key) => {
                InputEventData::Key(key)
            },
            RawEventKind::HookEnabled | RawEventKind::HookDisabled => {
                InputEventData::DeltaPosition { delta_x: 0, delta_y: 0 }
            },
        };
        let event_type = match raw.kind {
            RawEventKind::KeyDown(_) => EventType::KeyPress,
            RawEventKind::KeyUp(_) | RawEventKind::KeyTyped(_) => EventType::KeyRelease,
            RawEventKind::ButtonDown(_) => EventType::ButtonPress,
            RawEventKind::ButtonUp(_) | RawEventKind::Click(_) => EventType::ButtonRelease,
            RawEventKind::PointerMoved { .. } => EventType::MouseMove,
            RawEventKind::PointerDragged { .. } => EventType::MouseDragged,
            RawEventKind::Wheel { .. } | RawEventKind::WheelDelta { .. } => EventType::Wheel,
            RawEventKind::HookEnabled | RawEventKind::HookDisabled => EventType::Wheel,
        };
        let time = match raw.time {
            Some(millis) => millis,
            None => 0,
        };
        InputEvent { event_type, time, data }
    }
}

impl FromSpecImpl<RawEvent> for InputEvent {
    open spec fn obeys_from_spec() -> bool {
        true
    }

    open spec fn from_spec(raw: RawEvent) -> InputEvent {
        translate(raw)
    }
}

} // verus!
