//! Helpers for setting up encrypted connections.

use vstd::prelude::*;
use crate::protocol::encrypted::crypto::random_bytes;

verus! {

/// A new random secret key for the encryption layer, from which a public key
/// can be made. Nothing is known of the key but that it is random.
pub fn generate_secret() -> (r: [u8; 32]) {
    random_bytes()
}

} // verus!
