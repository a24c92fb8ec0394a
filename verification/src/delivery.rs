//! What the dispatcher asks the host to carry out.

use vstd::prelude::*;

use crate::models::InputEvent;

verus! {

/// The name under which an event is emitted to a window.
pub const WINDOW_EVENT: &'static str = "user-input";

/// A subscriber.
#[derive(Debug, Clone, PartialEq, Eq)]
pub enum Target {
    /// The window with this label.
    Window(String),
    /// The channel that was registered under this id.
    Channel(u32),
}

/// A subscriber, with the label as a sequence of characters.
pub enum TargetView {
    Window(Seq<char>),
    Channel(u32),
}

impl View for Target {
    type V = TargetView;

    open spec fn view(&self) -> TargetView {
        match *self {
            Target::Window(label) => TargetView::Window(label@),
            Target::Channel(id) => TargetView::Channel(id),
        }
    }
}

impl DeepView for Target {
    type V = TargetView;

    open spec fn deep_view(&self) -> TargetView {
        self@
    }
}

/// One event for one subscriber.
#[derive(Debug, Clone, PartialEq, Eq)]
pub struct Delivery {
    pub target: Target,
    pub event: InputEvent,
}

/// One event for one subscriber, over the subscriber's view.
pub struct DeliveryView {
    pub target: TargetView,
    pub event: InputEvent,
}

impl View for Delivery {
    type V = DeliveryView;

    open spec fn view(&self) -> DeliveryView {
        DeliveryView { target: self.target@, event: self.event }
    }
}

impl DeepView for Delivery {
    type V = DeliveryView;

    open spec fn deep_view(&self) -> DeliveryView {
        self@
    }
}

/// What the host must do after a subscriber has asked for events.
#[derive(Debug, Copy, Clone, PartialEq, Eq, Structural)]
pub enum StartAction {
    /// The hook is already installed: there is nothing to do.
    AlreadyListening,
    /// No hook is installed: the host installs one and reports how that went.
    InstallHook,
}

} // verus!
