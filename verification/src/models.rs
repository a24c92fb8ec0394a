//! The values that cross the library's boundary: the liveness probe and the
//! uniform input event that subscribers receive.

use vstd::prelude::*;

use crate::keys::{Button, Key};

verus! {

/// The payload of a liveness probe.
#[derive(Debug)]
pub struct PingRequest {
    pub value: Option<String>,
}

/// The answer to a liveness probe: the payload, echoed.
#[derive(Debug, Clone)]
pub struct PingResponse {
    pub value: Option<String>,
}

impl Default for PingResponse {
    fn default() -> (r: Self)
        ensures
            r.value is None,
    {
        PingResponse { value: None }
    }
}

/// The tag of an input event, and the vocabulary in which a subscriber says
/// which events it wants.
#[derive(Debug, Copy, Clone, PartialEq, Eq, Hash, Structural)]
pub enum EventType {
    KeyPress,
    KeyRelease,
    KeyClick,
    ButtonPress,
    ButtonRelease,
    ButtonClick,
    MouseMove,
    MouseDragged,
    Wheel,
}

/// What an input event carries besides its tag and time.
#[derive(Debug, Copy, Clone, PartialEq, Eq, Structural)]
pub enum InputEventData {
    /// The button that was pressed or released.
    Button(Button),
    /// Absolute pointer coordinates. Each field holds the IEEE 754 binary64
    /// bit pattern of the coordinate, so that a fractional position passes
    /// through unchanged.
    Position { x: u64, y: u64 },
    /// A signed scroll distance: positive is up or to the right.
    DeltaPosition { delta_x: i64, delta_y: i64 },
    /// The key that was pressed or released.
    Key(Key),
}

/// One input event as subscribers see it.
#[derive(Debug, Copy, Clone, PartialEq, Eq, Structural)]
pub struct InputEvent {
    pub event_type: EventType,
    /// Milliseconds since the Unix epoch at which the event was captured.
    pub time: u128,
    pub data: InputEventData,
}

} // verus!
