//! Raw events, as a platform hook reports them.

use vstd::prelude::*;

use crate::keys::{Button, Key};

verus! {

/// The way a wheel was turned.
#[derive(Debug, Copy, Clone, PartialEq, Eq, Structural)]
pub enum WheelDirection {
    Up,
    Down,
    Left,
    Right,
}

/// What happened, in the platform's own terms.
#[derive(Debug, Copy, Clone, PartialEq, Eq, Structural)]
pub enum RawEventKind {
    /// The hook has begun to report events. A marker of the hook's own life,
    /// not an input of the user.
    HookEnabled,
    /// The hook has ceased to report events. A marker like `HookEnabled`.
    HookDisabled,
    KeyDown(Key),
    KeyUp(Key),
    /// A key produced a character: reported by some platforms after the key
    /// went up.
    KeyTyped(Key),
    ButtonDown(Button),
    ButtonUp(Button),
    /// A button went down and up in one place.
    Click(Button),
    /// The pointer moved with no button held. The coordinates are absolute,
    /// each as the bit pattern of an IEEE 754 binary64 number.
    PointerMoved { x: u64, y: u64 },
    /// The pointer moved with a button held. Coordinates as in `PointerMoved`.
    PointerDragged { x: u64, y: u64 },
    /// The wheel turned by `magnitude` in one direction.
    Wheel { direction: WheelDirection, magnitude: u32 },
    /// The wheel turned by signed distances on both axes: positive is up or
    /// to the right.
    WheelDelta { delta_x: i64, delta_y: i64 },
}

/// One raw event together with the clock reading taken when it arrived.
#[derive(Debug, Copy, Clone, PartialEq, Eq, Structural)]
pub struct RawEvent {
    pub kind: RawEventKind,
    /// Milliseconds between the Unix epoch and the arrival of the event, or
    /// `None` where the clock stood before the epoch.
    pub time: Option<u128>,
}

impl RawEventKind {
    /// Whether this event marks the hook's own life rather than an input.
    pub open spec fn is_lifecycle(self) -> bool {
        self is HookEnabled || self is HookDisabled
    }

    /// Tells whether this event marks the hook's own life rather than an input.
    pub fn is_lifecycle_marker(&self) -> (r: bool)
        ensures
            r == self.is_lifecycle(),
    {
        match self {
            RawEventKind::HookEnabled => true,
            RawEventKind::HookDisabled => true,
            _ => false,
        }
    }
}

} // verus!
