//! Registry initialization and negotiation creation.

use vstd::prelude::*;
use crate::errors::HaggleError;
use crate::events::NegotiationCreated;
use crate::state::{
    AccountId, NegotiationParams, NegotiationState, NegotiationStatus, OfferSide,
    ProtocolConfig, ZopaPhase,
};

verus! {

/// Initialize the protocol registry: authority, treasury and defaults as
/// given, all aggregate counters at zero, circuit breaker disengaged.
pub fn initialize_config(
    authority: AccountId,
    treasury: AccountId,
    default_decay_rate_bps: u16,
    default_response_window: i64,
    default_protocol_fee_bps: u16,
    default_max_rounds: u8,
) -> (c: ProtocolConfig)
    ensures
        c == (ProtocolConfig {
            authority,
            treasury,
            default_decay_rate_bps,
            default_response_window,
            default_protocol_fee_bps,
            default_max_rounds,
            total_negotiations: 0,
            total_settled_volume: 0,
            total_fees_collected: 0,
            is_paused: false,
        }),
{
    ProtocolConfig {
        authority,
        treasury,
        default_decay_rate_bps,
        default_response_window,
        default_protocol_fee_bps,
        default_max_rounds,
        total_negotiations: 0,
        total_settled_volume: 0,
        total_fees_collected: 0,
        is_paused: false,
    }
}

/// Why creation is refused, or `None` when every check passes: the registry
/// must not be paused, the parameters must pass the all-or-nothing
/// validation, and neither the deadline addition nor the registry counter
/// may leave its value domain.
pub open spec fn create_error(
    params: NegotiationParams,
    now: i64,
    config: ProtocolConfig,
) -> Option<HaggleError> {
    if config.is_paused {
        Some(HaggleError::Paused)
    } else if !params.valid() {
        Some(HaggleError::InvalidParams)
    } else if now + params.global_deadline_offset > i64::MAX {
        Some(HaggleError::Overflow)
    } else if config.total_negotiations + 1 > u64::MAX {
        Some(HaggleError::Overflow)
    } else {
        None
    }
}

/// The freshly allocated record: status `Created`, no offer yet, the escrow
/// ceiling equal to the locked amount, the global deadline anchored at
/// `now`, and the commit-then-reveal sub-protocol armed only when requested.
pub open spec fn create_next(
    buyer: AccountId,
    seller: AccountId,
    token_mint: AccountId,
    session_id: u64,
    params: NegotiationParams,
    now: i64,
) -> NegotiationState {
    NegotiationState {
        buyer,
        seller,
        session_id,
        status: NegotiationStatus::Created,
        current_round: 0,
        current_offer_amount: 0,
        current_offer_by: AccountId { hi: 0, lo: 0 },
        offer_side: OfferSide::Buyer,
        service_hash: params.service_hash,
        escrow_amount: params.escrow_amount,
        effective_escrow: params.escrow_amount,
        token_mint,
        max_rounds: params.max_rounds,
        decay_rate_bps: params.decay_rate_bps,
        response_window: params.response_window,
        global_deadline: (now + params.global_deadline_offset) as i64,
        min_offer_bps: params.min_offer_bps,
        protocol_fee_bps: params.protocol_fee_bps,
        zopa_enabled: params.zopa_enabled,
        created_at: now,
        last_offer_at: 0,
        settled_at: 0,
        settled_amount: 0,
        buyer_commitment: vstd::array::spec_array_fill_for_copy_type::<u8, 32>(0u8),
        seller_commitment: vstd::array::spec_array_fill_for_copy_type::<u8, 32>(0u8),
        zopa_phase: if params.zopa_enabled {
            ZopaPhase::NotStarted
        } else {
            ZopaPhase::Skipped
        },
        metadata: vstd::array::spec_array_fill_for_copy_type::<u8, 64>(0u8),
    }
}

/// The registry after creation: the negotiation counter grown by one.
pub open spec fn create_config_next(config: ProtocolConfig) -> ProtocolConfig {
    ProtocolConfig { total_negotiations: (config.total_negotiations + 1) as u64, ..config }
}

/// Create a negotiation between `buyer` and `seller` over an escrow of
/// `params.escrow_amount`.
///
/// On success the environment must move `params.escrow_amount` from the
/// buyer into the negotiation's escrow custody; the record starts in status
/// `Created` with the escrow ceiling equal to the locked amount, and the
/// registry's negotiation counter grows. On refusal nothing changes.
pub fn create_negotiation(
    buyer: AccountId,
    seller: AccountId,
    token_mint: AccountId,
    negotiation_id: AccountId,
    session_id: u64,
    params: &NegotiationParams,
    now: i64,
    config: &mut ProtocolConfig,
) -> (r: Result<(NegotiationState, NegotiationCreated), HaggleError>)
    ensures
        match r {
            Ok(out) => {
                &&& create_error(*params, now, *old(config)) is None
                &&& out.0 == create_next(buyer, seller, token_mint, session_id, *params, now)
                &&& out.0.wf()
                &&& out.0.status == NegotiationStatus::Created
                &&& out.0.effective_escrow == params.escrow_amount
                &&& *final(config) == create_config_next(*old(config))
                &&& out.1 == (NegotiationCreated {
                    negotiation_id,
                    buyer,
                    seller,
                    escrow_amount: params.escrow_amount,
                    token_mint,
                    max_rounds: params.max_rounds,
                    decay_rate_bps: params.decay_rate_bps,
                    global_deadline: out.0.global_deadline,
                    timestamp: now,
                })
            },
            Err(e) => {
                &&& create_error(*params, now, *old(config)) == Some(e)
                &&& *final(config) == *old(config)
            },
        },
{
    if config.is_paused {
        return Err(HaggleError::Paused);
    }
    if !(params.max_rounds > 0 && params.max_rounds <= 20) {
        return Err(HaggleError::InvalidParams);
    }
    if !(params.decay_rate_bps <= 1000) {
        return Err(HaggleError::InvalidParams);
    }
    if !(params.response_window >= 60) {
        return Err(HaggleError::InvalidParams);
    }
    if !(params.global_deadline_offset >= 300) {
        return Err(HaggleError::InvalidParams);
    }
    if !(params.escrow_amount >= 100_000) {
        return Err(HaggleError::InvalidParams);
    }
    if !(params.min_offer_bps >= 100 && params.min_offer_bps <= 10000) {
        return Err(HaggleError::InvalidParams);
    }
    if !(params.protocol_fee_bps <= 500) {
        return Err(HaggleError::InvalidParams);
    }
    if now > i64::MAX - params.global_deadline_offset {
        return Err(HaggleError::Overflow);
    }
    let global_deadline = now + params.global_deadline_offset;
    if config.total_negotiations == u64::MAX {
        return Err(HaggleError::Overflow);
    }

    let record = NegotiationState {
        buyer,
        seller,
        session_id,
        status: NegotiationStatus::Created,
        current_round: 0,
        current_offer_amount: 0,
        current_offer_by: AccountId { hi: 0, lo: 0 },
        offer_side: OfferSide::Buyer,
        service_hash: params.service_hash,
        escrow_amount: params.escrow_amount,
        effective_escrow: params.escrow_amount,
        token_mint,
        max_rounds: params.max_rounds,
        decay_rate_bps: params.decay_rate_bps,
        response_window: params.response_window,
        global_deadline,
        min_offer_bps: params.min_offer_bps,
        protocol_fee_bps: params.protocol_fee_bps,
        zopa_enabled: params.zopa_enabled,
        created_at: now,
        last_offer_at: 0,
        settled_at: 0,
        settled_amount: 0,
        buyer_commitment: [0u8; 32],
        seller_commitment: [0u8; 32],
        zopa_phase: if params.zopa_enabled { ZopaPhase::NotStarted } else { ZopaPhase::Skipped },
        metadata: [0u8; 64],
    };
    config.total_negotiations = config.total_negotiations + 1;

    let event = NegotiationCreated {
        negotiation_id,
        buyer,
        seller,
        escrow_amount: params.escrow_amount,
        token_mint,
        max_rounds: params.max_rounds,
        decay_rate_bps: params.decay_rate_bps,
        global_deadline,
        timestamp: now,
    };
    Ok((record, event))
}

} // verus!
