//! A dispatcher for global keyboard and mouse events.
//!
//! The library owns the bookkeeping of a single system-wide input hook: which
//! windows and channels have subscribed, which kinds of event they want, and
//! whether the hook is installed. It turns each raw event of the platform
//! into a uniform [`InputEvent`] and says to whom it must be delivered. It
//! performs no input or output itself: the host installs the hook, feeds the
//! raw events in, and carries the deliveries out.

pub mod delivery;
pub mod dispatcher;
pub mod filter;
pub mod inject;
pub mod keys;
pub mod models;
pub mod raw;
pub mod registry;
pub mod translator;

pub use delivery::{Delivery, StartAction, Target, WINDOW_EVENT};
pub use dispatcher::{init, UserInput};
pub use filter::EventFilter;
pub use inject::SimulateError;
pub use keys::{Button, Key};
pub use models::{EventType, InputEvent, InputEventData, PingRequest, PingResponse};
pub use raw::{RawEvent, RawEventKind, WheelDirection};
