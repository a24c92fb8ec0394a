//! The dispatcher: the bookkeeping of the one input hook and its subscribers.
//!
//! The dispatcher decides and the host acts. Each method takes what happened
//! (a subscriber asked for events, the platform answered, a raw event came
//! in) and gives back what the host must do next. The dispatcher is either
//! idle or listening, and it listens exactly while it holds a hook handle.

use std::collections::HashMap;
use vstd::prelude::*;
use vstd::std_specs::iter::IteratorSpec;

use crate::delivery::{Delivery, DeliveryView, StartAction, Target, TargetView};
use crate::filter::EventFilter;
use crate::models::{EventType, InputEvent, PingRequest, PingResponse};
use crate::raw::RawEvent;
use crate::registry::Registry;
use crate::translator::translate;

verus! {

broadcast use vstd::std_specs::hash::group_hash_axioms;

/// The dispatcher. `H` is the host's handle of an installed hook, `C` its
/// handle of a channel to a subscriber.
pub struct UserInput<H, C> {
    hook: Option<H>,
    window_labels: Vec<String>,
    event_types: EventFilter,
    channels: HashMap<u32, C>,
}

impl<H, C> View for UserInput<H, C> {
    type V = Registry<H, C>;

    closed spec fn view(&self) -> Registry<H, C> {
        Registry {
            hook: self.hook,
            window_labels: self.window_labels.deep_view(),
            event_types: self.event_types@,
            channels: self.channels@,
        }
    }
}

/// Makes a dispatcher: idle, without subscribers, with a filter that lets
/// nothing pass.
pub fn init<H, C>() -> (user_input: UserInput<H, C>)
    ensures
        user_input@ == Registry::<H, C>::idle(),
{
    let user_input = UserInput {
        hook: None,
        window_labels: Vec::new(),
        event_types: EventFilter::new(),
        channels: HashMap::new(),
    };
    assert(user_input@.window_labels =~= Seq::empty());
    user_input
}

impl<H, C> UserInput<H, C> {
    /// Answers a liveness probe with the value that came with it. The
    /// dispatcher plays no part in the answer.
    pub fn ping(&self, payload: PingRequest) -> (response: PingResponse)
        ensures
            response.value == payload.value,
    {
        PingResponse { value: payload.value }
    }

    /// Whether a hook is installed.
    pub fn is_listening(&self) -> (listening: bool)
        ensures
            listening == self@.is_listening(),
    {
        self.hook.is_some()
    }

    /// Replaces the windows that receive events. A label that names no
    /// window is accepted like any other.
    pub fn set_window_labels(&mut self, labels: Vec<String>)
        ensures
            final(self)@ == old(self)@.with_window_labels(labels.deep_view()),
    {
        self.window_labels = labels;
    }

    /// Replaces the filter by the set of the types in `event_types`. With an
    /// empty list nothing is delivered any more.
    pub fn set_event_types(&mut self, event_types: Vec<EventType>)
        ensures
            final(self)@ == old(self)@.with_event_types(event_types@.to_set()),
    {
        self.event_types = EventFilter::from_types(&event_types);
    }

    /// Registers the channel `on_event` under `id` and says whether the host
    /// must install the hook. It must exactly when none is installed.
    pub fn start_listening(&mut self, id: u32, on_event: C) -> (action: StartAction)
        ensures
            final(self)@ == old(self)@.subscribe(id, on_event),
            action == if old(self)@.is_listening() {
                StartAction::AlreadyListening
            } else {
                StartAction::InstallHook
            },
    {
        self.channels.insert(id, on_event);
        if self.hook.is_some() {
            StartAction::AlreadyListening
        } else {
            StartAction::InstallHook
        }
    }

    /// Takes the platform's answer to an attempt to install the hook.
    ///
    /// Where the platform refused, the error goes back to the caller and the
    /// dispatcher is left as it was: idle, with the channels that it has.
    /// Nothing is tried a second time. Where it gave a handle, the dispatcher
    /// keeps it and listens from now on, unless it holds a handle already:
    /// then it hands the new one back, for the host to release.
    pub fn finish_start<E>(&mut self, outcome: Result<H, E>) -> (surplus: Result<Option<H>, E>)
        ensures
            match outcome {
                Ok(handle) => {
                    &&& final(self)@ == old(self)@.install(handle)
                    &&& surplus == Ok::<Option<H>, E>(
                        if old(self)@.is_listening() {
                            Some(handle)
                        } else {
                            None
                        },
                    )
                },
                Err(error) => final(self)@ == old(self)@ && surplus == Err::<Option<H>, E>(error),
            },
    {
        match outcome {
            Ok(handle) => {
                if self.hook.is_some() {
                    Ok(Some(handle))
                } else {
                    self.hook = Some(handle);
                    Ok(None)
                }
            },
            Err(error) => Err(error),
        }
    }

    /// Stops listening: lets go of the hook handle and of every channel, and
    /// keeps the window labels and the filter. The handle, if there was one,
    /// goes to the caller, who tears the hook down. Whatever comes of that,
    /// the dispatcher is idle.
    pub fn stop_listening(&mut self) -> (handle: Option<H>)
        ensures
            final(self)@ == old(self)@.stop(),
            handle == old(self)@.hook,
    {
        self.channels.clear();
        self.hook.take()
    }

    /// The channel that is registered under `id`, if there is one.
    pub fn channel(&self, id: u32) -> (channel: Option<&C>)
        ensures
            match channel {
                Some(found) => self@.channels.contains_key(id) && *found == self@.channels[id],
                None => !self@.channels.contains_key(id),
            },
    {
        self.channels.get(&id)
    }

    /// Says to whom a raw event must be delivered.
    ///
    /// The event is translated and tested against the filter. Where it
    /// passes, the result holds one delivery for each window label, in the
    /// labels' order, and then one for each channel, every one of them with
    /// the same translated event. Where it does not pass, or the dispatcher
    /// does not listen, or the event only marks the hook's own life, the
    /// result is empty. The dispatcher itself is left as it is.
    pub fn dispatch(&self, raw: RawEvent) -> (deliveries: Vec<Delivery>)
        ensures
            self@.is_fan_out(raw, deliveries.deep_view()),
    {
        let mut deliveries: Vec<Delivery> = Vec::new();
        if self.hook.is_none() || raw.kind.is_lifecycle_marker() {
            return deliveries;
        }
        let event = InputEvent::from(raw);
        if !self.event_types.contains(event.event_type) {
            return deliveries;
        }
        let windows = self.window_labels.len();
        for next in 0..windows
            invariant
                windows == self.window_labels.len(),
                deliveries.len() == next,
                forall|i: int|
                    0 <= i < next ==> (#[trigger] deliveries[i])@ == (DeliveryView {
                        target: TargetView::Window(self.window_labels[i]@),
                        event,
                    }),
        {
            let label = self.window_labels[next].clone();
            deliveries.push(Delivery { target: Target::Window(label), event });
        }
        let ghost ids = self.channels.keys().remaining();
        for id in keys: self.channels.keys()
            invariant
                windows == self.window_labels.len(),
                keys.seq() == ids,
                deliveries.len() == windows + keys.index(),
                forall|i: int|
                    0 <= i < windows ==> (#[trigger] deliveries[i])@ == (DeliveryView {
                        target: TargetView::Window(self.window_labels[i]@),
                        event,
                    }),
                forall|i: int|
                    0 <= i < keys.index() ==> (#[trigger] deliveries[windows + i])@
                        == (DeliveryView { target: TargetView::Channel(*ids[i]), event }),
        {
            deliveries.push(Delivery { target: Target::Channel(*id), event });
        }
        proof {
            assert(ids.unref().to_set() == self.channels@.dom());
            assert(ids.no_duplicates());
            lemma_plan_is_fan_out(self@, raw, deliveries.deep_view(), ids.unref());
        }
        deliveries
    }
}

/// A plan that was put together from the labels in their order and then
/// from the ids in `ids`, where `ids` holds each registered id once, is the
/// fan-out of `raw`.
proof fn lemma_plan_is_fan_out<H, C>(
    state: Registry<H, C>,
    raw: RawEvent,
    plan: Seq<DeliveryView>,
    ids: Seq<u32>,
)
    requires
        state.delivers(raw),
        ids.no_duplicates(),
        ids.to_set() == state.channels.dom(),
        ids.len() == state.channels.dom().len(),
        plan.len() == state.window_labels.len() + ids.len(),
        forall|i: int|
            0 <= i < state.window_labels.len() ==> #[trigger] plan[i] == (DeliveryView {
                target: TargetView::Window(state.window_labels[i]),
                event: translate(raw),
            }),
        forall|i: int|
            0 <= i < ids.len() ==> #[trigger] plan[state.window_labels.len() + i] == (DeliveryView {
                target: TargetView::Channel(ids[i]),
                event: translate(raw),
            }),
    ensures
        state.is_fan_out(raw, plan),
{
    let windows = state.window_labels.len() as int;
    let event = translate(raw);
    let to_channels = plan.subrange(windows, plan.len() as int);
    assert(plan.subrange(0, windows) =~= state.window_deliveries(event));
    assert forall|i: int| 0 <= i < to_channels.len() implies #[trigger] to_channels[i] == (
    DeliveryView { target: TargetView::Channel(ids[i]), event }) by {
        assert(to_channels[i] == plan[windows + i]);
    }
    assert forall|delivery: DeliveryView| #[trigger]
        to_channels.to_set().contains(delivery) implies state.channel_deliveries(event).contains(
        delivery,
    ) by {
        let at = choose|at: int| 0 <= at < to_channels.len() && to_channels[at] == delivery;
        assert(ids.contains(ids[at]));
    }
    assert forall|delivery: DeliveryView| #[trigger]
        state.channel_deliveries(event).contains(delivery) implies to_channels.to_set().contains(
        delivery,
    ) by {
        let id = delivery.target->Channel_0;
        assert(ids.to_set().contains(id));
        let at = choose|at: int| 0 <= at < ids.len() && ids[at] == id;
        assert(to_channels[at] == delivery);
    }
    assert(to_channels.to_set() =~= state.channel_deliveries(event));
}

} // verus!
