//! Offer submission: the core transition. Each submitted offer first shrinks
//! the escrow ceiling by the decay rate, then must land between the
//! minimum-offer floor and the decayed ceiling.

use vstd::prelude::*;
use crate::errors::HaggleError;
use crate::events::OfferSubmitted;
use crate::math::{bps_part, lemma_bps_part_le, mul_bps};
use crate::state::{AccountId, NegotiationState, NegotiationStatus, OfferSide};

verus! {

/// The escrow ceiling after one decay step: `e - e * rate / 10000`,
/// truncating. A ratchet — each round the maximum claimable value shrinks.
pub open spec fn decay_step(e: int, rate: int) -> int {
    e - bps_part(e, rate)
}

/// Whether `caller` may move now: their side must be the opposite of the
/// side that authored the pending offer.
pub open spec fn turn_ok(n: NegotiationState, caller: AccountId) -> bool {
    let expected = n.offer_side.opposite();
    ||| n.is_buyer(caller) && expected == OfferSide::Buyer
    ||| n.is_seller(caller) && expected == OfferSide::Seller
}

/// Why an offer is refused, or `None` when every check passes, in the order
/// the checks are made: an offer must be pending response; the caller must
/// be a party, moving in strict alternation once the first round is played;
/// both the global deadline and the rolling response window must be open;
/// the round budget must not be spent; the decay and floor products must fit
/// the 64-bit domain; and the amount must sit between the floor and the
/// decayed ceiling.
pub open spec fn offer_error(
    n: NegotiationState,
    caller: AccountId,
    amount: u64,
    now: i64,
) -> Option<HaggleError> {
    let decayed = decay_step(n.effective_escrow as int, n.decay_rate_bps as int);
    if !n.status.offer_pending() {
        Some(HaggleError::InvalidState)
    } else if !n.is_party(caller) {
        Some(HaggleError::Unauthorized)
    } else if n.current_round > 0 && !turn_ok(n, caller) {
        Some(HaggleError::NotYourTurn)
    } else if now >= n.global_deadline {
        Some(HaggleError::Expired)
    } else if n.last_offer_at > 0 && n.last_offer_at + n.response_window > i64::MAX {
        Some(HaggleError::Overflow)
    } else if n.last_offer_at > 0 && now >= n.last_offer_at + n.response_window {
        Some(HaggleError::ResponseWindowExpired)
    } else if n.current_round >= n.max_rounds {
        Some(HaggleError::MaxRoundsReached)
    } else if n.effective_escrow * n.decay_rate_bps > u64::MAX {
        Some(HaggleError::Overflow)
    } else if decayed * n.min_offer_bps > u64::MAX {
        Some(HaggleError::Overflow)
    } else if amount < bps_part(decayed, n.min_offer_bps as int) {
        Some(HaggleError::OfferTooLow)
    } else if amount > decayed {
        Some(HaggleError::OfferExceedsEscrow)
    } else {
        None
    }
}

/// The record after an accepted offer: the ceiling decayed once, the offer
/// recorded against the caller's side, the round counter advanced, the
/// response window re-anchored, the metadata overwritten, and the status
/// encoding whose offer is pending response — `Proposed` after a buyer
/// offer, `Countered` after a seller offer.
pub open spec fn offer_next(
    n: NegotiationState,
    caller: AccountId,
    amount: u64,
    metadata: [u8; 64],
    now: i64,
) -> NegotiationState {
    NegotiationState {
        status: if n.is_buyer(caller) {
            NegotiationStatus::Proposed
        } else {
            NegotiationStatus::Countered
        },
        current_round: (n.current_round + 1) as u8,
        current_offer_amount: amount,
        current_offer_by: caller,
        offer_side: if n.is_buyer(caller) {
            OfferSide::Buyer
        } else {
            OfferSide::Seller
        },
        effective_escrow: decay_step(n.effective_escrow as int, n.decay_rate_bps as int) as u64,
        last_offer_at: now,
        metadata,
        ..n
    }
}

/// Submit an offer of `amount` against the negotiation.
///
/// On success the record advances as `offer_next` says; in particular the
/// ceiling never grows, and the accepted amount satisfies the bound
/// `floor <= amount <= ceiling` against the post-decay ceiling. On refusal
/// nothing changes.
pub fn submit_offer(
    n: &mut NegotiationState,
    negotiation_id: AccountId,
    caller: AccountId,
    amount: u64,
    metadata: [u8; 64],
    now: i64,
) -> (r: Result<OfferSubmitted, HaggleError>)
    requires
        old(n).wf(),
    ensures
        final(n).wf(),
        final(n).effective_escrow <= old(n).effective_escrow,
        final(n).escrow_amount == old(n).escrow_amount,
        match r {
            Ok(ev) => {
                &&& offer_error(*old(n), caller, amount, now) is None
                &&& *final(n) == offer_next(*old(n), caller, amount, metadata, now)
                &&& bps_part(final(n).effective_escrow as int, final(n).min_offer_bps as int)
                    <= amount <= final(n).effective_escrow
                &&& ev == (OfferSubmitted {
                    negotiation_id,
                    offerer: caller,
                    amount,
                    round: final(n).current_round,
                    effective_escrow: final(n).effective_escrow,
                    timestamp: now,
                })
            },
            Err(e) => {
                &&& offer_error(*old(n), caller, amount, now) == Some(e)
                &&& *final(n) == *old(n)
            },
        },
{
    if !(n.status == NegotiationStatus::Proposed || n.status == NegotiationStatus::Countered) {
        return Err(HaggleError::InvalidState);
    }
    let is_buyer = caller == n.buyer;
    let is_seller = caller == n.seller;
    if !(is_buyer || is_seller) {
        return Err(HaggleError::Unauthorized);
    }
    if n.current_round > 0 {
        let expected_side = if n.offer_side == OfferSide::Buyer {
            OfferSide::Seller
        } else {
            OfferSide::Buyer
        };
        if !((is_buyer && expected_side == OfferSide::Buyer)
            || (is_seller && expected_side == OfferSide::Seller)) {
            return Err(HaggleError::NotYourTurn);
        }
    }
    if now >= n.global_deadline {
        return Err(HaggleError::Expired);
    }
    if n.last_offer_at > 0 {
        if n.last_offer_at > i64::MAX - n.response_window {
            return Err(HaggleError::Overflow);
        }
        if now >= n.last_offer_at + n.response_window {
            return Err(HaggleError::ResponseWindowExpired);
        }
    }
    if n.current_round >= n.max_rounds {
        return Err(HaggleError::MaxRoundsReached);
    }

    let decay = match mul_bps(n.effective_escrow, n.decay_rate_bps) {
        Some(d) => d,
        None => {
            return Err(HaggleError::Overflow);
        },
    };
    proof {
        lemma_bps_part_le(n.effective_escrow as int, n.decay_rate_bps as int);
    }
    let decayed = n.effective_escrow - decay;

    let min_offer = match mul_bps(decayed, n.min_offer_bps) {
        Some(m) => m,
        None => {
            return Err(HaggleError::Overflow);
        },
    };
    proof {
        lemma_bps_part_le(decayed as int, n.min_offer_bps as int);
    }
    if amount < min_offer {
        return Err(HaggleError::OfferTooLow);
    }
    if amount > decayed {
        return Err(HaggleError::OfferExceedsEscrow);
    }

    n.effective_escrow = decayed;
    n.current_offer_amount = amount;
    n.current_offer_by = caller;
    n.offer_side = if is_buyer { OfferSide::Buyer } else { OfferSide::Seller };
    n.current_round = n.current_round + 1;
    n.last_offer_at = now;
    n.metadata = metadata;
    n.status = if is_buyer { NegotiationStatus::Proposed } else { NegotiationStatus::Countered };

    Ok(OfferSubmitted {
        negotiation_id,
        offerer: caller,
        amount,
        round: n.current_round,
        effective_escrow: n.effective_escrow,
        timestamp: now,
    })
}

} // verus!
