//! Rejection: the pending offer is declined outright.

use vstd::prelude::*;
use crate::errors::HaggleError;
use crate::events::NegotiationRejected;
use crate::state::{AccountId, NegotiationState, NegotiationStatus};

verus! {

/// Why rejection is refused, or `None` when every check passes. Rejection
/// mirrors acceptance: only a party who did not author the pending offer,
/// only while an offer is pending, only before the global deadline.
pub open spec fn reject_error(
    n: NegotiationState,
    caller: AccountId,
    now: i64,
) -> Option<HaggleError> {
    if !n.status.offer_pending() {
        Some(HaggleError::InvalidState)
    } else if !n.is_party(caller) {
        Some(HaggleError::Unauthorized)
    } else if caller == n.current_offer_by {
        Some(HaggleError::Unauthorized)
    } else if now >= n.global_deadline {
        Some(HaggleError::Expired)
    } else {
        None
    }
}

/// Decline the pending offer outright.
///
/// On success the record becomes terminal `Rejected` and the environment
/// must refund the entire current escrow balance — the whole of
/// `vault_balance` — to the buyer; the returned event carries that refund
/// and the rounds completed. On refusal nothing changes.
pub fn reject_negotiation(
    n: &mut NegotiationState,
    negotiation_id: AccountId,
    caller: AccountId,
    vault_balance: u64,
    now: i64,
) -> (r: Result<NegotiationRejected, HaggleError>)
    requires
        old(n).wf(),
    ensures
        final(n).wf(),
        match r {
            Ok(ev) => {
                &&& reject_error(*old(n), caller, now) is None
                &&& *final(n) == (NegotiationState {
                    status: NegotiationStatus::Rejected,
                    ..*old(n)
                })
                &&& ev == (NegotiationRejected {
                    negotiation_id,
                    rejected_by: caller,
                    refund_amount: vault_balance,
                    rounds_completed: old(n).current_round,
                    timestamp: now,
                })
            },
            Err(e) => {
                &&& reject_error(*old(n), caller, now) == Some(e)
                &&& *final(n) == *old(n)
            },
        },
{
    if !(n.status == NegotiationStatus::Proposed || n.status == NegotiationStatus::Countered) {
        return Err(HaggleError::InvalidState);
    }
    let is_buyer = caller == n.buyer;
    let is_seller = caller == n.seller;
    if !(is_buyer || is_seller) {
        return Err(HaggleError::Unauthorized);
    }
    if caller == n.current_offer_by {
        return Err(HaggleError::Unauthorized);
    }
    if now >= n.global_deadline {
        return Err(HaggleError::Expired);
    }
    let rounds_completed = n.current_round;
    n.status = NegotiationStatus::Rejected;
    Ok(NegotiationRejected {
        negotiation_id,
        rejected_by: caller,
        refund_amount: vault_balance,
        rounds_completed,
        timestamp: now,
    })
}

} // verus!
