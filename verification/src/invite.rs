//! Invitation acceptance: the seller joins the negotiation.

use vstd::prelude::*;
use crate::errors::HaggleError;
use crate::state::{AccountId, NegotiationState, NegotiationStatus};

verus! {

/// Why invitation acceptance is refused, or `None` when every check passes:
/// only the named seller, only from `Created`, only before the global
/// deadline.
pub open spec fn invite_error(
    n: NegotiationState,
    caller: AccountId,
    now: i64,
) -> Option<HaggleError> {
    if !n.is_seller(caller) {
        Some(HaggleError::Unauthorized)
    } else if n.status != NegotiationStatus::Created {
        Some(HaggleError::InvalidState)
    } else if now >= n.global_deadline {
        Some(HaggleError::Expired)
    } else {
        None
    }
}

/// Accept the invitation: transition `Created` to `Proposed` and anchor the
/// response window at `now`. Only the named seller may do so, and only
/// before the global deadline. On refusal nothing changes.
pub fn accept_invitation(
    n: &mut NegotiationState,
    caller: AccountId,
    now: i64,
) -> (r: Result<(), HaggleError>)
    requires
        old(n).wf(),
    ensures
        final(n).wf(),
        match r {
            Ok(()) => {
                &&& invite_error(*old(n), caller, now) is None
                &&& *final(n) == (NegotiationState {
                    status: NegotiationStatus::Proposed,
                    last_offer_at: now,
                    ..*old(n)
                })
            },
            Err(e) => {
                &&& invite_error(*old(n), caller, now) == Some(e)
                &&& *final(n) == *old(n)
            },
        },
{
    if !(caller == n.seller) {
        return Err(HaggleError::Unauthorized);
    }
    if !(n.status == NegotiationStatus::Created) {
        return Err(HaggleError::InvalidState);
    }
    if now >= n.global_deadline {
        return Err(HaggleError::Expired);
    }
    n.status = NegotiationStatus::Proposed;
    n.last_offer_at = now;
    Ok(())
}

} // verus!
