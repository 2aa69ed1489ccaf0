//! Options of TCP connections.

use vstd::prelude::*;

verus! {

/// Options of a TCP listener or stream.
#[derive(Clone, Debug, Default)]
pub struct TcpOptions {
    /// The time to live of the socket connection.
    pub ttl: Option<u32>,
}

} // verus!
