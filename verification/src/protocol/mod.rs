//! Transport options and the encryption layer of connections.

pub mod encrypted;
pub mod tcp;
