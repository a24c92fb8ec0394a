//! The dispatcher's state as a mathematical value, and what each operation
//! makes of it.

use vstd::prelude::*;

use crate::delivery::{DeliveryView, TargetView};
use crate::models::{EventType, InputEvent};
use crate::raw::RawEvent;
use crate::translator::translate;

verus! {

/// The state of a dispatcher: the handle of the installed hook, if one is
/// installed, and who has subscribed to what. `H` is the host's handle of a
/// hook, `C` its handle of a channel.
#[verifier::ext_equal]
pub struct Registry<H, C> {
    /// The handle of the installed hook. The dispatcher listens exactly when
    /// it holds one.
    pub hook: Option<H>,
    /// The labels of the windows that receive every delivered event, in the
    /// order in which they were given.
    pub window_labels: Seq<Seq<char>>,
    /// The types of event that are delivered.
    pub event_types: Set<EventType>,
    /// The channels that receive every delivered event, by id.
    pub channels: Map<u32, C>,
}

impl<H, C> Registry<H, C> {
    /// The state of a new dispatcher: no hook, no subscriber, and a filter
    /// that lets nothing pass.
    pub open spec fn idle() -> Self {
        Registry {
            hook: None,
            window_labels: Seq::empty(),
            event_types: Set::empty(),
            channels: Map::empty(),
        }
    }

    /// Whether a hook is installed. The handle is the only record of it.
    pub open spec fn is_listening(self) -> bool {
        self.hook is Some
    }

    /// The labels are replaced as a whole.
    pub open spec fn with_window_labels(self, labels: Seq<Seq<char>>) -> Self {
        Registry { window_labels: labels, ..self }
    }

    /// The filter is replaced as a whole.
    pub open spec fn with_event_types(self, event_types: Set<EventType>) -> Self {
        Registry { event_types, ..self }
    }

    /// A channel is added under its id, in place of an earlier one of that id.
    pub open spec fn subscribe(self, id: u32, channel: C) -> Self {
        Registry { channels: self.channels.insert(id, channel), ..self }
    }

    /// A hook handle is taken in, unless one is held already.
    pub open spec fn install(self, handle: H) -> Self {
        if self.is_listening() {
            self
        } else {
            Registry { hook: Some(handle), ..self }
        }
    }

    /// The hook handle and all channels are let go. Labels and filter stay.
    pub open spec fn stop(self) -> Self {
        Registry { hook: None, channels: Map::empty(), ..self }
    }

    /// Whether a raw event is delivered at all: only while listening, never
    /// a marker of the hook's own life, and only an event whose type the
    /// filter holds.
    pub open spec fn delivers(self, raw: RawEvent) -> bool {
        &&& self.is_listening()
        &&& !raw.kind.is_lifecycle()
        &&& self.event_types.contains(translate(raw).event_type)
    }

    /// The deliveries of `event` to the windows: one for each label, in the
    /// labels' order.
    pub open spec fn window_deliveries(self, event: InputEvent) -> Seq<DeliveryView> {
        Seq::new(
            self.window_labels.len(),
            |i: int| DeliveryView { target: TargetView::Window(self.window_labels[i]), event },
        )
    }

    /// The deliveries of `event` to the channels: one for each id.
    pub open spec fn channel_deliveries(self, event: InputEvent) -> Set<DeliveryView> {
        Set::new(
            |delivery: DeliveryView|
                {
                    &&& delivery.event == event
                    &&& delivery.target matches TargetView::Channel(id)
                    &&& self.channels.contains_key(id)
                },
        )
    }

    /// Whether `target` is a subscriber: a window whose label is set, or a
    /// channel whose id is registered.
    pub open spec fn is_subscribed(self, target: TargetView) -> bool {
        match target {
            TargetView::Window(label) => self.window_labels.contains(label),
            TargetView::Channel(id) => self.channels.contains_key(id),
        }
    }

    /// Whether `plan` is the fan-out of `raw`. Where the event is delivered,
    /// the plan holds first the deliveries to the windows and then, in some
    /// order, one delivery for each channel. Where it is not, the plan is
    /// empty.
    pub open spec fn is_fan_out(self, raw: RawEvent, plan: Seq<DeliveryView>) -> bool {
        if self.delivers(raw) {
            let windows = self.window_labels.len() as int;
            let to_channels = plan.subrange(windows, plan.len() as int);
            &&& plan.len() == windows + self.channels.dom().len()
            &&& plan.subrange(0, windows) == self.window_deliveries(translate(raw))
            &&& to_channels.no_duplicates()
            &&& to_channels.to_set() == self.channel_deliveries(translate(raw))
        } else {
            plan.len() == 0
        }
    }
}

/// A fan-out is complete. Where an event is delivered, its fan-out has as
/// many deliveries as there are labels and registered channels together, and
/// every one of them carries the translation of the event. Those to the
/// labels come first, one for each label and in the labels' order. The
/// others go to registered channels, and each registered channel is the
/// target of exactly one of them.
pub proof fn lemma_fan_out_is_complete<H, C>(
    state: Registry<H, C>,
    raw: RawEvent,
    plan: Seq<DeliveryView>,
)
    requires
        state.delivers(raw),
        state.is_fan_out(raw, plan),
    ensures
        plan.len() == state.window_labels.len() + state.channels.dom().len(),
        forall|i: int| 0 <= i < plan.len() ==> (#[trigger] plan[i]).event == translate(raw),
        forall|i: int|
            0 <= i < state.window_labels.len() ==> (#[trigger] plan[i]).target
                == TargetView::Window(state.window_labels[i]),
        forall|i: int|
            state.window_labels.len() <= i < plan.len() ==> (#[trigger] plan[i]).target is Channel
                && state.channels.contains_key(plan[i].target->Channel_0),
        forall|id: u32| #[trigger]
            state.channels.contains_key(id) ==> exists|i: int|
                state.window_labels.len() <= i < plan.len() && (#[trigger] plan[i]).target
                    == TargetView::Channel(id),
        forall|i: int, j: int|
            state.window_labels.len() <= i < j < plan.len() ==> (#[trigger] plan[i]).target != (
            #[trigger] plan[j]).target,
{
    let windows = state.window_labels.len() as int;
    let event = translate(raw);
    let to_windows = plan.subrange(0, windows);
    let to_channels = plan.subrange(windows, plan.len() as int);
    assert forall|i: int| 0 <= i < windows implies (#[trigger] plan[i]).event == event
        && plan[i].target == TargetView::Window(state.window_labels[i]) by {
        assert(plan[i] == to_windows[i]);
    }
    assert forall|i: int| windows <= i < plan.len() implies (#[trigger] plan[i]).event == event
        && plan[i].target is Channel && state.channels.contains_key(
        plan[i].target->Channel_0,
    ) by {
        assert(plan[i] == to_channels[i - windows]);
        assert(to_channels.to_set().contains(to_channels[i - windows]));
    }
    assert forall|id: u32| #[trigger] state.channels.contains_key(id) implies exists|i: int|
        windows <= i < plan.len() && (#[trigger] plan[i]).target == TargetView::Channel(id) by {
        let wanted = DeliveryView { target: TargetView::Channel(id), event };
        assert(state.channel_deliveries(event).contains(wanted));
        assert(to_channels.contains(wanted));
        let at = choose|at: int| 0 <= at < to_channels.len() && to_channels[at] == wanted;
        assert(plan[windows + at] == wanted);
    }
    assert forall|i: int, j: int| windows <= i < j < plan.len() implies (#[trigger] plan[i]).target
        != (#[trigger] plan[j]).target by {
        assert(plan[i] == to_channels[i - windows]);
        assert(plan[j] == to_channels[j - windows]);
        assert(to_channels.to_set().contains(to_channels[i - windows]));
        assert(to_channels.to_set().contains(to_channels[j - windows]));
    }
}

/// The filter decides. While the dispatcher listens with the filter `filter`,
/// an input event reaches a subscriber if and only if its type is in the
/// filter. With the empty filter nothing is delivered to anyone.
pub proof fn lemma_filter_decides_delivery<H, C>(
    state: Registry<H, C>,
    filter: Set<EventType>,
    raw: RawEvent,
    plan: Seq<DeliveryView>,
    target: TargetView,
)
    requires
        state.is_listening(),
        !raw.kind.is_lifecycle(),
        state.is_subscribed(target),
        state.with_event_types(filter).is_fan_out(raw, plan),
    ensures
        plan.contains(DeliveryView { target, event: translate(raw) }) <==> filter.contains(
            translate(raw).event_type,
        ),
        filter == Set::<EventType>::empty() ==> plan.len() == 0,
{
    let filtered = state.with_event_types(filter);
    let wanted = DeliveryView { target, event: translate(raw) };
    if filter.contains(translate(raw).event_type) {
        lemma_fan_out_is_complete(filtered, raw, plan);
        match target {
            TargetView::Window(label) => {
                let at = choose|at: int|
                    0 <= at < state.window_labels.len() && state.window_labels[at] == label;
                assert(plan[at] == wanted);
            },
            TargetView::Channel(id) => {
                assert(filtered.channels.contains_key(id));
                let at = choose|at: int|
                    state.window_labels.len() <= at < plan.len() && (#[trigger] plan[at]).target
                        == TargetView::Channel(id);
                assert(plan[at] == wanted);
            },
        }
    }
}

/// Starting is idempotent. Where a hook is installed already, two further
/// subscribers leave that hook in place and the dispatcher listening, a hook
/// handle that is offered on top is not taken in, and both subscribers are
/// among the targets of every event that is delivered afterwards.
pub proof fn lemma_start_is_idempotent<H, C>(
    state: Registry<H, C>,
    first_id: u32,
    first: C,
    second_id: u32,
    second: C,
    offered: H,
    raw: RawEvent,
    plan: Seq<DeliveryView>,
)
    requires
        state.is_listening(),
        state.subscribe(first_id, first).subscribe(second_id, second).is_fan_out(raw, plan),
    ensures
        ({
            let after = state.subscribe(first_id, first).subscribe(second_id, second);
            &&& after.hook == state.hook
            &&& after.is_listening()
            &&& after.install(offered) == after
            &&& after.channels[second_id] == second
            &&& first_id != second_id ==> after.channels[first_id] == first
            &&& after.delivers(raw) ==> {
                &&& plan.contains(
                    DeliveryView { target: TargetView::Channel(first_id), event: translate(raw) },
                )
                &&& plan.contains(
                    DeliveryView { target: TargetView::Channel(second_id), event: translate(raw) },
                )
            }
        }),
{
    let after = state.subscribe(first_id, first).subscribe(second_id, second);
    if after.delivers(raw) {
        lemma_filter_decides_delivery(
            after,
            after.event_types,
            raw,
            plan,
            TargetView::Channel(first_id),
        );
        lemma_filter_decides_delivery(
            after,
            after.event_types,
            raw,
            plan,
            TargetView::Channel(second_id),
        );
    }
}

/// Stopping is idempotent. A dispatcher that does not listen has no hook
/// handle to give up and is changed by a stop in its channels alone, which
/// it loses. After a stop the dispatcher is idle, and a second stop changes
/// nothing. A dispatcher that was never started is the same after a stop as
/// before.
pub proof fn lemma_stop_is_idempotent<H, C>(state: Registry<H, C>)
    ensures
        !state.is_listening() ==> state.stop() == (Registry { channels: Map::empty(), ..state }),
        !state.stop().is_listening(),
        state.stop().stop() == state.stop(),
        Registry::<H, C>::idle().stop() == Registry::<H, C>::idle(),
{
    assert(state.stop().stop() =~= state.stop());
    assert(Registry::<H, C>::idle().stop() =~= Registry::<H, C>::idle());
}

/// Nothing is delivered once the hook handle is gone: the fan-out of every
/// raw event is empty after a stop, whatever the labels and the filter.
pub proof fn lemma_nothing_is_delivered_after_stop<H, C>(
    state: Registry<H, C>,
    raw: RawEvent,
    plan: Seq<DeliveryView>,
)
    requires
        state.stop().is_fan_out(raw, plan),
    ensures
        plan.len() == 0,
{
}

/// A stop lets go of the channels and keeps the labels and the filter. A
/// dispatcher that is stopped and then started with one new channel holds
/// that channel alone, listens, and delivers by the labels and the filter
/// that were set before the stop.
pub proof fn lemma_stop_keeps_labels_and_filter<H, C>(
    state: Registry<H, C>,
    id: u32,
    channel: C,
    handle: H,
    raw: RawEvent,
)
    ensures
        ({
            let restarted = state.stop().subscribe(id, channel).install(handle);
            &&& restarted.window_labels == state.window_labels
            &&& restarted.event_types == state.event_types
            &&& restarted.channels == Map::<u32, C>::empty().insert(id, channel)
            &&& restarted.hook == Some(handle)
            &&& restarted.delivers(raw) <==> !raw.kind.is_lifecycle()
                && state.event_types.contains(translate(raw).event_type)
            &&& restarted.window_deliveries(translate(raw)) == state.window_deliveries(
                translate(raw),
            )
        }),
{
}

} // verus!
