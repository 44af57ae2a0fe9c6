//! Closure: resource reclamation once a negotiation is terminal.

use vstd::prelude::*;
use crate::errors::HaggleError;
use crate::state::{AccountId, NegotiationState, NegotiationStatus};

verus! {

/// Why closure is refused, or `None` when it goes through: only the
/// negotiation's creator — the buyer — may close, and only once the record
/// is terminal.
pub open spec fn close_error(n: NegotiationState, caller: AccountId) -> Option<HaggleError> {
    if !n.is_buyer(caller) {
        Some(HaggleError::Unauthorized)
    } else if !n.status.is_terminal() {
        Some(HaggleError::InvalidState)
    } else {
        None
    }
}

/// Authorize the teardown of a terminal negotiation's custody resource.
///
/// Purely a permission check: on success the environment releases the empty
/// escrow custody back to the buyer and discards the record. The record
/// itself is not changed.
pub fn close_negotiation(
    n: &NegotiationState,
    caller: AccountId,
) -> (r: Result<(), HaggleError>)
    ensures
        match r {
            Ok(()) => close_error(*n, caller) is None,
            Err(e) => close_error(*n, caller) == Some(e),
        },
{
    if !(caller == n.buyer) {
        return Err(HaggleError::Unauthorized);
    }
    if !(n.status == NegotiationStatus::Settled
        || n.status == NegotiationStatus::Expired
        || n.status == NegotiationStatus::Rejected) {
        return Err(HaggleError::InvalidState);
    }
    Ok(())
}

} // verus!
