//! Domain events: append-only records handed to external observers. Nothing
//! in this crate consumes them.

use vstd::prelude::*;
use crate::state::AccountId;

verus! {

/// A negotiation record was allocated and its escrow funded.
#[derive(Clone, Copy, PartialEq, Eq, Structural, Debug)]
pub struct NegotiationCreated {
    pub negotiation_id: AccountId,
    pub buyer: AccountId,
    pub seller: AccountId,
    pub escrow_amount: u64,
    pub token_mint: AccountId,
    pub max_rounds: u8,
    pub decay_rate_bps: u16,
    pub global_deadline: i64,
    pub timestamp: i64,
}

/// An offer passed every check and became the pending offer.
#[derive(Clone, Copy, PartialEq, Eq, Structural, Debug)]
pub struct OfferSubmitted {
    pub negotiation_id: AccountId,
    pub offerer: AccountId,
    pub amount: u64,
    pub round: u8,
    pub effective_escrow: u64,
    pub timestamp: i64,
}

/// The pending offer was accepted and the escrow paid out.
#[derive(Clone, Copy, PartialEq, Eq, Structural, Debug)]
pub struct NegotiationSettled {
    pub negotiation_id: AccountId,
    pub buyer: AccountId,
    pub seller: AccountId,
    pub settled_amount: u64,
    pub total_rounds: u8,
    pub protocol_fee: u64,
    /// Total value shaved off the ceiling by decay over the negotiation's
    /// life, for auditability.
    pub escrow_decay_total: u64,
    pub timestamp: i64,
}

/// The global deadline lapsed and the escrow was refunded to the buyer.
#[derive(Clone, Copy, PartialEq, Eq, Structural, Debug)]
pub struct NegotiationExpired {
    pub negotiation_id: AccountId,
    pub refund_amount: u64,
    pub rounds_completed: u8,
    pub timestamp: i64,
}

/// The pending offer was declined outright and the escrow refunded.
#[derive(Clone, Copy, PartialEq, Eq, Structural, Debug)]
pub struct NegotiationRejected {
    pub negotiation_id: AccountId,
    pub rejected_by: AccountId,
    pub refund_amount: u64,
    pub rounds_completed: u8,
    pub timestamp: i64,
}

} // verus!
