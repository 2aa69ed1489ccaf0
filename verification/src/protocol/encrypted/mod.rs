//! The encryption layer: connections agree on a key with X25519, then every
//! package is sealed with ChaCha20Poly1305 under a nonce that counts the
//! packages sent in each direction.

pub mod cipher;
pub mod crypto;
pub mod keys;
pub mod package;
