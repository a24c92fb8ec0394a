//! Synthetic key input: which raw events stand for a request to press,
//! release or click a key.

use vstd::prelude::*;

use crate::dispatcher::UserInput;
use crate::keys::Key;
use crate::models::EventType;
use crate::raw::RawEventKind;

verus! {

/// The request named an event type that is no key event.
#[derive(Debug, Copy, Clone, PartialEq, Eq, Structural)]
pub struct SimulateError;

/// The raw events that a request of type `evt_type` for `key` stands for, in
/// the order in which they are injected: a press is the key going down, a
/// release the key going up, a click both in turn. Other event types ask for
/// nothing that a key can do.
pub open spec fn key_strokes(key: Key, evt_type: EventType) -> Option<Seq<RawEventKind>> {
    match evt_type {
        EventType::KeyPress => Some(seq![RawEventKind::KeyDown(key)]),
        EventType::KeyRelease => Some(seq![RawEventKind::KeyUp(key)]),
        EventType::KeyClick => Some(seq![RawEventKind::KeyDown(key), RawEventKind::KeyUp(key)]),
        _ => None,
    }
}

impl<H, C> UserInput<H, C> {
    /// Says which raw events the host must inject for a request of type
    /// `evt_type` for `key`. The host injects them in order and stops at the
    /// first that the platform refuses. A request that is no key event is an
    /// error, and nothing is to be injected for it.
    pub fn key(&self, key: Key, evt_type: EventType) -> (strokes: Result<
        Vec<RawEventKind>,
        SimulateError,
    >)
        ensures
            match strokes {
                Ok(events) => key_strokes(key, evt_type) == Some(events@),
                Err(_) => key_strokes(key, evt_type) is None,
            },
    {
        match evt_type {
            EventType::KeyPress => {
                let events = vec![RawEventKind::KeyDown(key)];
                assert(events@ =~= seq![RawEventKind::KeyDown(key)]);
                Ok(events)
            },
            EventType::KeyRelease => {
                let events = vec![RawEventKind::KeyUp(key)];
                assert(events@ =~= seq![RawEventKind::KeyUp(key)]);
                Ok(events)
            },
            EventType::KeyClick => {
                let events = vec![RawEventKind::KeyDown(key), RawEventKind::KeyUp(key)];
                assert(events@ =~= seq![RawEventKind::KeyDown(key), RawEventKind::KeyUp(key)]);
                Ok(events)
            },
            _ => Err(SimulateError),
        }
    }
}

} // verus!
