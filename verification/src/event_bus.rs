//! Type-keyed publish/subscribe routing: every event type carries a stable
//! key, and the bus keeps, per key, the list of subscribed listeners in
//! subscription order.
//!
//! Listeners are named by opaque ids; the embedding program owns the
//! listener bodies and schedules each one independently after the bus has
//! listed them, so publication answers only who is to be notified — a slow
//! or failing listener can never block another one, and an event with no
//! listeners is a no-op, not an error.

use vstd::prelude::*;

verus! {

use std::collections::HashMap;
use crate::collection::CollectionEvent;
use crate::component::ComponentEvent;

broadcast use vstd::std_specs::hash::group_hash_axioms;

/// Stable type key of `ComponentEvent` on the event bus.
pub const COMPONENT_EVENT_KEY: u64 = 10;

/// Stable type key of `CollectionEvent` on the event bus.
pub const COLLECTION_EVENT_KEY: u64 = 11;

/// A fact that has already happened, broadcast to zero or more listeners
/// by the stable key of its type.
pub trait Event {
    /// The stable key identifying this event type.
    spec fn spec_event_key() -> u64;

    /// The key of this event type, for routing.
    fn event_key() -> (r: u64)
        ensures
            r == Self::spec_event_key(),
    ;
}

impl Event for ComponentEvent {
    open spec fn spec_event_key() -> u64 {
        COMPONENT_EVENT_KEY
    }

    fn event_key() -> u64 {
        COMPONENT_EVENT_KEY
    }
}

impl Event for CollectionEvent {
    open spec fn spec_event_key() -> u64 {
        COLLECTION_EVENT_KEY
    }

    fn event_key() -> u64 {
        COLLECTION_EVENT_KEY
    }
}

/// A subscriber to events of type `E`.
pub trait EventListener<E> {
    /// Invoked with each published event of type `E`.
    fn on_event(&mut self, event: &E);
}

/// Bookkeeping failures of an event bus, reported apart from validation and
/// routing errors: registration could not record the listener, or dispatch
/// could not read the listener table (a poisoned lock in the embedding
/// program, for instance).
#[derive(Debug)]
pub enum EventBusError {
    RegistrationError(String),
    DispatchError(String),
}

/// In-memory event bus: per event type key, the subscribed listeners in
/// subscription order.
pub struct InMemoryEventBus {
    listeners: HashMap<u64, Vec<u64>>,
}

impl View for InMemoryEventBus {
    type V = Map<u64, Vec<u64>>;

    closed spec fn view(&self) -> Map<u64, Vec<u64>> {
        self.listeners@
    }
}

/// The listeners registered for `key`: the recorded list, or empty when the
/// key was never subscribed to.
pub open spec fn listeners_for(m: Map<u64, Vec<u64>>, key: u64) -> Seq<u64> {
    if m.contains_key(key) {
        m[key]@
    } else {
        Seq::<u64>::empty()
    }
}

impl Default for InMemoryEventBus {
    fn default() -> (r: Self)
        ensures
            r@ == Map::<u64, Vec<u64>>::empty(),
    {
        InMemoryEventBus::new()
    }
}

impl InMemoryEventBus {
    /// A bus with no subscriptions.
    pub fn new() -> (r: Self)
        ensures
            r@ == Map::<u64, Vec<u64>>::empty(),
    {
        InMemoryEventBus { listeners: HashMap::new() }
    }

    /// Appends the listener to the list for event type `E`; other types'
    /// lists are untouched.
    pub fn subscribe<E: Event>(&mut self, listener: u64)
        ensures
            listeners_for(final(self)@, E::spec_event_key()) == listeners_for(
                old(self)@,
                E::spec_event_key(),
            ).push(listener),
            forall|k: u64|
                k != E::spec_event_key() ==> listeners_for(final(self)@, k) == listeners_for(
                    old(self)@,
                    k,
                ),
    {
        let key = E::event_key();
        let mut list: Vec<u64> = match self.listeners.get(&key) {
            Some(v) => copy_ids(v),
            None => Vec::new(),
        };
        list.push(listener);
        self.listeners.insert(key, list);
    }

    /// Lists the listeners to notify for this event, in subscription order:
    /// all of them, and nothing else.  With no subscribers the list is
    /// empty and the publication is a no-op.  The caller schedules each
    /// listed listener as its own unit of work.
    pub fn publish<E: Event>(&self, event: &E) -> (r: Vec<u64>)
        ensures
            r@ == listeners_for(self@, E::spec_event_key()),
    {
        let key = E::event_key();
        match self.listeners.get(&key) {
            Some(v) => copy_ids(v),
            None => Vec::new(),
        }
    }
}

/// An element-wise copy of a listener list.
fn copy_ids(v: &Vec<u64>) -> (r: Vec<u64>)
    ensures
        r@ == v@,
{
    let mut r: Vec<u64> = Vec::new();
    let mut i: usize = 0;
    while i < v.len()
        invariant
            i <= v@.len(),
            r@ == v@.take(i as int),
        decreases v@.len() - i,
    {
        r.push(v[i]);
        proof {
            assert(r@ =~= v@.take(i as int + 1));
        }
        i = i + 1;
    }
    proof {
        assert(r@ =~= v@);
    }
    r
}

} // verus!
