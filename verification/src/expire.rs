//! Expiry: permissionless reclamation of an abandoned negotiation.

use vstd::prelude::*;
use crate::errors::HaggleError;
use crate::events::NegotiationExpired;
use crate::state::{AccountId, NegotiationState, NegotiationStatus};

verus! {

/// Why expiry is refused, or `None` when it goes through: the record must
/// still be live — `Created`, `Proposed` or `Countered` — and the global
/// deadline must have passed. A premature crank and a crank on a terminal
/// record are both `InvalidState`; there is no caller condition at all.
pub open spec fn expire_error(n: NegotiationState, now: i64) -> Option<HaggleError> {
    if !(n.status == NegotiationStatus::Created || n.status.offer_pending()) {
        Some(HaggleError::InvalidState)
    } else if now < n.global_deadline {
        Some(HaggleError::InvalidState)
    } else {
        None
    }
}

/// Expire a negotiation whose global deadline has passed.
///
/// Callable by anyone — expiry is the fallback that must not depend on
/// either counterparty's participation. On success the record becomes
/// terminal `Expired` and the environment must refund the entire remaining
/// escrow balance — the whole of `vault_balance` — to the buyer. On refusal
/// nothing changes; in particular a second crank on the now-terminal record
/// is refused with `InvalidState` and moves no value.
pub fn expire_negotiation(
    n: &mut NegotiationState,
    negotiation_id: AccountId,
    vault_balance: u64,
    now: i64,
) -> (r: Result<NegotiationExpired, HaggleError>)
    requires
        old(n).wf(),
    ensures
        final(n).wf(),
        match r {
            Ok(ev) => {
                &&& expire_error(*old(n), now) is None
                &&& *final(n) == (NegotiationState {
                    status: NegotiationStatus::Expired,
                    ..*old(n)
                })
                &&& ev == (NegotiationExpired {
                    negotiation_id,
                    refund_amount: vault_balance,
                    rounds_completed: old(n).current_round,
                    timestamp: now,
                })
            },
            Err(e) => {
                &&& expire_error(*old(n), now) == Some(e)
                &&& *final(n) == *old(n)
            },
        },
{
    if !(n.status == NegotiationStatus::Created
        || n.status == NegotiationStatus::Proposed
        || n.status == NegotiationStatus::Countered) {
        return Err(HaggleError::InvalidState);
    }
    if now < n.global_deadline {
        return Err(HaggleError::InvalidState);
    }
    let rounds_completed = n.current_round;
    n.status = NegotiationStatus::Expired;
    Ok(NegotiationExpired {
        negotiation_id,
        refund_amount: vault_balance,
        rounds_completed,
        timestamp: now,
    })
}

} // verus!
