//! Events and their payloads.

pub mod error_event;
pub mod event;
pub mod event_id;
pub mod event_handler;
pub mod payload;
pub mod payload_serializer;
