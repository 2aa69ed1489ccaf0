//! Namespaces: named groups of event callbacks.

pub mod namespace;
