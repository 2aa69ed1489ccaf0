//! Event-based interprocess communication: the wire format of events and
//! payloads, the decisions taken when events arrive, and the encryption layer
//! that protects a connection.
//!
//! Every function here is verified by Verus against its contract. The
//! asynchronous transport that drives these pieces lives outside this crate.

pub mod error;
pub mod events;
pub mod ipc;
pub mod namespaces;
pub mod protocol;
pub mod text;
pub mod utils;
pub mod wire;

pub use events::error_event;
pub use events::event;
pub use events::event_handler;
pub use events::payload;
pub use namespaces::namespace;
