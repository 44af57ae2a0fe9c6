//! Acceptance of the pending offer: the settlement transition.

use vstd::prelude::*;
use crate::errors::HaggleError;
use crate::events::NegotiationSettled;
use crate::math::{bps_part, lemma_bps_part_le, mul_bps};
use crate::state::{AccountId, NegotiationState, NegotiationStatus, ProtocolConfig};

verus! {

/// The three settlement payouts, to be moved out of escrow custody under one
/// atomic ledger action. A zero amount means the corresponding transfer is
/// skipped.
#[derive(Clone, Copy, PartialEq, Eq, Structural, Debug)]
pub struct SettlementTransfers {
    /// The settled amount less the protocol fee, to the seller.
    pub seller_payout: u64,
    /// The fee on the settled amount, to the protocol treasury.
    pub protocol_fee: u64,
    /// Whatever else the vault holds — decayed-away value and rounding
    /// remainder — back to the buyer.
    pub buyer_refund: u64,
}

/// The protocol fee on the pending offer, truncating.
pub open spec fn settlement_fee(n: NegotiationState) -> int {
    bps_part(n.current_offer_amount as int, n.protocol_fee_bps as int)
}

/// Why acceptance is refused, or `None` when every check passes. The record
/// must hold a pending offer; the caller must be a party other than the
/// offer's author; the global deadline must not have passed; and neither the
/// fee product, the vault subtraction, nor the registry counters may leave
/// the 64-bit value domain.
pub open spec fn accept_error(
    n: NegotiationState,
    caller: AccountId,
    vault_balance: u64,
    now: i64,
    config: ProtocolConfig,
) -> Option<HaggleError> {
    if !n.status.offer_pending() {
        Some(HaggleError::InvalidState)
    } else if !n.is_party(caller) {
        Some(HaggleError::Unauthorized)
    } else if caller == n.current_offer_by {
        Some(HaggleError::Unauthorized)
    } else if now >= n.global_deadline {
        Some(HaggleError::Expired)
    } else if n.current_offer_amount * n.protocol_fee_bps > u64::MAX {
        Some(HaggleError::Overflow)
    } else if vault_balance < n.current_offer_amount {
        Some(HaggleError::Overflow)
    } else if config.total_settled_volume + n.current_offer_amount > u64::MAX {
        Some(HaggleError::Overflow)
    } else if config.total_fees_collected + settlement_fee(n) > u64::MAX {
        Some(HaggleError::Overflow)
    } else {
        None
    }
}

/// The record after settlement: terminal `Settled`, with the settled amount
/// and timestamp fixed; every other field keeps its value.
pub open spec fn accept_next(n: NegotiationState, now: i64) -> NegotiationState {
    NegotiationState {
        status: NegotiationStatus::Settled,
        settled_amount: n.current_offer_amount,
        settled_at: now,
        ..n
    }
}

/// The payouts settlement issues against a vault holding `vault_balance`.
pub open spec fn settlement_transfers(
    n: NegotiationState,
    vault_balance: u64,
) -> SettlementTransfers {
    SettlementTransfers {
        seller_payout: (n.current_offer_amount - settlement_fee(n)) as u64,
        protocol_fee: settlement_fee(n) as u64,
        buyer_refund: (vault_balance - n.current_offer_amount) as u64,
    }
}

/// The registry after settlement: aggregate volume and fee counters grown by
/// the settled amount and the fee.
pub open spec fn accept_config_next(
    config: ProtocolConfig,
    n: NegotiationState,
) -> ProtocolConfig {
    ProtocolConfig {
        total_settled_volume: (config.total_settled_volume + n.current_offer_amount) as u64,
        total_fees_collected: (config.total_fees_collected + settlement_fee(n)) as u64,
        ..config
    }
}

/// Accept the pending offer and settle the negotiation.
///
/// Only a party who did not author the pending offer may accept, only while
/// an offer is pending and before the global deadline. On success the record
/// becomes terminal `Settled`, the registry counters grow, and the returned
/// transfers split the entire vault balance between seller, treasury and
/// buyer with nothing destroyed. On refusal nothing changes.
pub fn accept_offer(
    n: &mut NegotiationState,
    negotiation_id: AccountId,
    caller: AccountId,
    vault_balance: u64,
    now: i64,
    config: &mut ProtocolConfig,
) -> (r: Result<(SettlementTransfers, NegotiationSettled), HaggleError>)
    requires
        old(n).wf(),
    ensures
        final(n).wf(),
        match r {
            Ok(out) => {
                &&& accept_error(*old(n), caller, vault_balance, now, *old(config)) is None
                &&& *final(n) == accept_next(*old(n), now)
                &&& *final(config) == accept_config_next(*old(config), *old(n))
                &&& out.0 == settlement_transfers(*old(n), vault_balance)
                &&& out.0.seller_payout + out.0.protocol_fee + out.0.buyer_refund
                    == vault_balance
                &&& out.1 == (NegotiationSettled {
                    negotiation_id,
                    buyer: old(n).buyer,
                    seller: old(n).seller,
                    settled_amount: old(n).current_offer_amount,
                    total_rounds: old(n).current_round,
                    protocol_fee: settlement_fee(*old(n)) as u64,
                    escrow_decay_total: (old(n).escrow_amount - old(n).effective_escrow) as u64,
                    timestamp: now,
                })
            },
            Err(e) => {
                &&& accept_error(*old(n), caller, vault_balance, now, *old(config)) == Some(e)
                &&& *final(n) == *old(n)
                &&& *final(config) == *old(config)
            },
        },
{
    if !(n.status == NegotiationStatus::Proposed || n.status == NegotiationStatus::Countered) {
        return Err(HaggleError::InvalidState);
    }
    let is_buyer = caller == n.buyer;
    let is_seller = caller == n.seller;
    if !(is_buyer || is_seller) {
        return Err(HaggleError::Unauthorized);
    }
    if caller == n.current_offer_by {
        return Err(HaggleError::Unauthorized);
    }
    if now >= n.global_deadline {
        return Err(HaggleError::Expired);
    }

    let settled_amount = n.current_offer_amount;
    let protocol_fee = match mul_bps(settled_amount, n.protocol_fee_bps) {
        Some(f) => f,
        None => {
            return Err(HaggleError::Overflow);
        },
    };
    proof {
        lemma_bps_part_le(settled_amount as int, n.protocol_fee_bps as int);
    }
    let seller_payout = settled_amount - protocol_fee;
    if vault_balance < settled_amount {
        return Err(HaggleError::Overflow);
    }
    let buyer_refund = vault_balance - settled_amount;
    if config.total_settled_volume > u64::MAX - settled_amount {
        return Err(HaggleError::Overflow);
    }
    if config.total_fees_collected > u64::MAX - protocol_fee {
        return Err(HaggleError::Overflow);
    }

    let escrow_decay_total = n.escrow_amount - n.effective_escrow;
    let total_rounds = n.current_round;
    n.status = NegotiationStatus::Settled;
    n.settled_amount = settled_amount;
    n.settled_at = now;
    config.total_settled_volume = config.total_settled_volume + settled_amount;
    config.total_fees_collected = config.total_fees_collected + protocol_fee;

    Ok((
        SettlementTransfers { seller_payout, protocol_fee, buyer_refund },
        NegotiationSettled {
            negotiation_id,
            buyer: n.buyer,
            seller: n.seller,
            settled_amount,
            total_rounds,
            protocol_fee,
            escrow_decay_total,
            timestamp: now,
        },
    ))
}

} // verus!
