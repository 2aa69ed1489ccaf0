//! The listeners that wait for replies, by the id of the event they wait on.

use vstd::prelude::*;
use std::collections::HashMap;

verus! {

broadcast use vstd::std_specs::hash::group_hash_axioms;

/// The listeners waiting for replies, keyed by the id of the event whose
/// replies they wait for.
#[verifier::reject_recursive_types(S)]
pub struct ReplyListeners<S> {
    listeners: HashMap<u64, S>,
}

impl<S> View for ReplyListeners<S> {
    type V = Map<u64, S>;

    closed spec fn view(&self) -> Map<u64, S> {
        self.listeners@
    }
}

impl<S> ReplyListeners<S> {
    /// No listeners.
    pub fn new() -> (r: ReplyListeners<S>)
        ensures
            r@ == Map::<u64, S>::empty(),
    {
        ReplyListeners { listeners: HashMap::new() }
    }

    /// Registers `listener` for the replies to the event `event_id`, replacing
    /// any listener registered for it before.
    pub fn register(&mut self, event_id: u64, listener: S)
        ensures
            final(self)@ == old(self)@.insert(event_id, listener),
    {
        self.listeners.insert(event_id, listener);
    }

    /// The listener for replies to the event `ref_id`, if any.
    pub fn listener(&self, ref_id: u64) -> (r: Option<&S>)
        ensures
            match r {
                Some(l) => self@.contains_key(ref_id) && *l == self@[ref_id],
                None => !self@.contains_key(ref_id),
            },
    {
        self.listeners.get(&ref_id)
    }

    /// Whether a listener waits for replies to the event `ref_id`.
    pub fn has_listener(&self, ref_id: u64) -> (r: bool)
        ensures
            r == self@.contains_key(ref_id),
    {
        self.listeners.contains_key(&ref_id)
    }

    /// Removes the listener for replies to the event `event_id`.
    pub fn remove(&mut self, event_id: u64)
        ensures
            final(self)@ == old(self)@.remove(event_id),
    {
        self.listeners.remove(&event_id);
    }
}

/// A listener registered for an event is the one found for replies to it,
/// registering it leaves the listeners of other events as they were, and
/// after it is removed no listener is found for that event.
pub proof fn lemma_register_then_lookup<S>(m: Map<u64, S>, event_id: u64, listener: S, other: u64)
    requires
        other != event_id,
    ensures
        m.insert(event_id, listener).contains_key(event_id),
        m.insert(event_id, listener)[event_id] == listener,
        m.insert(event_id, listener).contains_key(other) == m.contains_key(other),
        m.contains_key(other) ==> m.insert(event_id, listener)[other] == m[other],
        !m.insert(event_id, listener).remove(event_id).contains_key(event_id),
{
}

} // verus!
