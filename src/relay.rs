//! How one relay between a client and a backend ends.
use vstd::prelude::*;

use crate::error::BalancerError;

verus! {

/// The result of relaying one connection, given whether the dial to the
/// backend succeeded and, if it did, whether both copy directions ended at a
/// clean end of stream. A failed dial is `BackendUnavailable` (nothing is
/// copied then); a failed copy is `Transfer`. Either error belongs to this
/// connection alone.
pub fn relay_outcome(dialed: bool, copied: bool) -> (r: Result<(), BalancerError>)
    ensures
        !dialed ==> r == Err::<(), BalancerError>(BalancerError::BackendUnavailable),
        dialed && !copied ==> r == Err::<(), BalancerError>(BalancerError::Transfer),
        dialed && copied ==> r == Ok::<(), BalancerError>(()),
{
    if !dialed {
        Err(BalancerError::BackendUnavailable)
    } else if !copied {
        Err(BalancerError::Transfer)
    } else {
        Ok(())
    }
}

} // verus!
