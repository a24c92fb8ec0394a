//! The set of event types that subscribers have asked for.

use vstd::prelude::*;

use crate::models::EventType;

verus! {

/// A finite set of event types. An event passes the filter when its type is
/// a member; the empty filter lets nothing pass.
#[derive(Debug)]
pub struct EventFilter {
    /// The members, each of them once.
    members: Vec<EventType>,
}

impl View for EventFilter {
    type V = Set<EventType>;

    closed spec fn view(&self) -> Set<EventType> {
        self.members@.to_set()
    }
}

impl EventFilter {
    #[verifier::type_invariant]
    spec fn each_member_once(self) -> bool {
        self.members@.no_duplicates()
    }

    /// The filter that lets nothing pass.
    pub fn new() -> (filter: Self)
        ensures
            filter@ == Set::<EventType>::empty(),
    {
        let filter = EventFilter { members: Vec::new() };
        assert(filter.members@.to_set() =~= Set::<EventType>::empty());
        filter
    }

    /// The filter whose members are the types that occur in `event_types`,
    /// however often and in whatever order they occur there.
    pub fn from_types(event_types: &Vec<EventType>) -> (filter: Self)
        ensures
            filter@ == event_types@.to_set(),
    {
        let mut members: Vec<EventType> = Vec::new();
        let mut next: usize = 0;
        while next < event_types.len()
            invariant
                next <= event_types.len(),
                members@.no_duplicates(),
                forall|i: int|
                    0 <= i < members.len() ==> event_types@.contains(#[trigger] members[i]),
                forall|i: int| 0 <= i < next ==> members@.contains(#[trigger] event_types[i]),
            decreases event_types.len() - next,
        {
            let event_type = event_types[next];
            if !occurs_in(&members, event_type) {
                let ghost before = members@;
                members.push(event_type);
                assert(members@[before.len() as int] == event_type);
                assert forall|i: int| 0 <= i < next implies members@.contains(
                    #[trigger] event_types[i],
                ) by {
                    let at = choose|at: int| 0 <= at < before.len() && before[at] == event_types[i];
                    assert(members@[at] == event_types[i]);
                }
            }
            next += 1;
        }
        assert(members@.to_set() =~= event_types@.to_set());
        EventFilter { members }
    }

    /// Whether `event_type` is a member.
    pub fn contains(&self, event_type: EventType) -> (member: bool)
        ensures
            member == self@.contains(event_type),
    {
        occurs_in(&self.members, event_type)
    }
}

/// Searches `types` for `wanted`.
fn occurs_in(types: &Vec<EventType>, wanted: EventType) -> (found: bool)
    ensures
        found == types@.contains(wanted),
{
    let mut at: usize = 0;
    while at < types.len()
        invariant
            at <= types.len(),
            forall|i: int| 0 <= i < at ==> types[i] != wanted,
        decreases types.len() - at,
    {
        if types[at] == wanted {
            return true;
        }
        at += 1;
    }
    false
}

} // verus!
