//! Checks made before a server or client is built.

use vstd::prelude::*;
use crate::error::Error;

verus! {

/// Succeeds when an address was given; otherwise fails with the build error
/// "Missing Address".
pub fn validate_address<A>(address: &Option<A>) -> (r: Result<(), Error>)
    ensures
        address is Some ==> r is Ok,
        address is None ==> (r matches Err(Error::BuildError(m)) && m@ == "Missing Address"@),
{
    if address.is_none() {
        Err(Error::BuildError("Missing Address".to_owned()))
    } else {
        Ok(())
    }
}

} // verus!
