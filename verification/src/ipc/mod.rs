//! The decisions of a connection: where received events go, what is sent
//! back, and which connection of a pool is used.

pub mod builder;
pub mod dispatch;
pub mod emit;
pub mod pool;
pub mod reply_listeners;
