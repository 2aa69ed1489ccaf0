//! A namespace: a name and the callbacks registered in it.

use vstd::prelude::*;
use std::sync::Arc;
use vstd::hash_map::StringHashMap;
use crate::events::event_handler::EventHandler;

verus! {

/// A name and the callbacks registered for events sent to it.
#[verifier::reject_recursive_types(C)]
pub struct Namespace<C> {
    name: String,
    handler: Arc<EventHandler<C>>,
}

/// The abstract value of a namespace.
#[verifier::ext_equal]
#[verifier::reject_recursive_types(C)]
pub struct NamespaceView<C> {
    /// The name.
    pub name: Seq<char>,
    /// The callbacks by event name.
    pub callbacks: Map<Seq<char>, C>,
}

impl<C> View for Namespace<C> {
    type V = NamespaceView<C>;

    closed spec fn view(&self) -> NamespaceView<C> {
        NamespaceView { name: self.name@, callbacks: self.handler@ }
    }
}

impl<C> Namespace<C> {
    /// A namespace named `name` with the callbacks of `handler`.
    pub fn new(name: String, handler: EventHandler<C>) -> (n: Namespace<C>)
        ensures
            n@ == (NamespaceView { name: name@, callbacks: handler@ }),
    {
        Namespace { name, handler: Arc::new(handler) }
    }

    /// The name of the namespace.
    pub fn name(&self) -> (r: &String)
        ensures
            r@ == self@.name,
    {
        &self.name
    }

    /// The callbacks of the namespace.
    pub fn handler(&self) -> (r: &EventHandler<C>)
        ensures
            r@ == self@.callbacks,
    {
        &*self.handler
    }
}

impl<C> Clone for Namespace<C> {
    fn clone(&self) -> (r: Self)
        ensures
            r@ == self@,
    {
        Namespace { name: self.name.clone(), handler: Arc::clone(&self.handler) }
    }
}

/// The registered namespaces, by name.
#[verifier::reject_recursive_types(C)]
pub struct Namespaces<C> {
    table: StringHashMap<Namespace<C>>,
}

impl<C> View for Namespaces<C> {
    type V = Map<Seq<char>, Namespace<C>>;

    closed spec fn view(&self) -> Map<Seq<char>, Namespace<C>> {
        self.table@
    }
}

impl<C> Namespaces<C> {
    /// No namespaces.
    pub fn new() -> (t: Namespaces<C>)
        ensures
            t@ == Map::<Seq<char>, Namespace<C>>::empty(),
    {
        Namespaces { table: StringHashMap::new() }
    }

    /// Registers `namespace` under its name, replacing any namespace of that
    /// name registered before.
    pub fn add_namespace(&mut self, namespace: Namespace<C>)
        ensures
            final(self)@ == old(self)@.insert(namespace@.name, namespace),
    {
        let name = namespace.name().clone();
        self.table.insert(name, namespace);
    }

    /// The namespace named `name`, if any.
    pub fn get(&self, name: &str) -> (r: Option<&Namespace<C>>)
        ensures
            match r {
                Some(n) => self@.contains_key(name@) && *n == self@[name@],
                None => !self@.contains_key(name@),
            },
    {
        self.table.get(name)
    }
}

} // verus!
