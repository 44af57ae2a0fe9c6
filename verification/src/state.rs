//! The data model: identities, the negotiation record, and the registry.

use vstd::prelude::*;
use crate::math::bps_part;

verus! {

/// An opaque 32-byte account address, held as two 128-bit halves so that
/// equality in verified code is field equality. The library never interprets
/// an address; it only compares the authenticated caller against the stored
/// buyer and seller.
#[derive(Clone, Copy, PartialEq, Eq, Structural, Debug)]
pub struct AccountId {
    pub hi: u128,
    pub lo: u128,
}

/// The lifecycle state of one negotiation record.
#[derive(Clone, Copy, PartialEq, Eq, Structural, Debug)]
pub enum NegotiationStatus {
    /// Allocated by the buyer; the seller has not yet joined.
    Created,
    /// The buyer's offer (or the seller's invitation acceptance) is pending.
    Proposed,
    /// The seller's counter-offer is pending.
    Countered,
    /// Reserved intermediate state; no transition produces it.
    Accepted,
    /// Terminal: an offer was accepted and value was paid out.
    Settled,
    /// Terminal: the global deadline lapsed and the escrow was refunded.
    Expired,
    /// Terminal: the pending offer was declined outright.
    Rejected,
}

/// Which party authored the latest offer.
#[derive(Clone, Copy, PartialEq, Eq, Structural, Debug)]
pub enum OfferSide {
    Buyer,
    Seller,
}

/// Progress of the optional commit-then-reveal sub-protocol for the zone of
/// possible agreement. No transition in this crate advances it past its
/// creation-time value.
#[derive(Clone, Copy, PartialEq, Eq, Structural, Debug)]
pub enum ZopaPhase {
    NotStarted,
    BuyerCommitted,
    BothCommitted,
    Revealed,
    Skipped,
}

/// The parameters fixed at creation.
#[derive(Clone, Copy, Debug)]
pub struct NegotiationParams {
    /// Value locked at creation, in minor units.
    pub escrow_amount: u64,
    /// Opaque digest of the service under negotiation.
    pub service_hash: [u8; 32],
    /// Upper bound on the number of offers.
    pub max_rounds: u8,
    /// Escrow ceiling shrinkage per offer, in basis points.
    pub decay_rate_bps: u16,
    /// Seconds each party has to answer the latest offer.
    pub response_window: i64,
    /// Seconds from creation to the global deadline.
    pub global_deadline_offset: i64,
    /// Floor on offers, in basis points of the decayed ceiling.
    pub min_offer_bps: u16,
    /// Protocol fee on the settled amount, in basis points.
    pub protocol_fee_bps: u16,
    /// Whether the commit-then-reveal sub-protocol is requested.
    pub zopa_enabled: bool,
}

/// The authoritative state of a single negotiation instance.
#[derive(Clone, Copy, Debug)]
pub struct NegotiationState {
    pub buyer: AccountId,
    pub seller: AccountId,
    pub session_id: u64,
    pub status: NegotiationStatus,
    pub current_round: u8,
    pub current_offer_amount: u64,
    pub current_offer_by: AccountId,
    pub offer_side: OfferSide,
    pub service_hash: [u8; 32],
    pub escrow_amount: u64,
    pub effective_escrow: u64,
    pub token_mint: AccountId,
    pub max_rounds: u8,
    pub decay_rate_bps: u16,
    pub response_window: i64,
    pub global_deadline: i64,
    pub min_offer_bps: u16,
    pub protocol_fee_bps: u16,
    pub zopa_enabled: bool,
    pub created_at: i64,
    pub last_offer_at: i64,
    pub settled_at: i64,
    pub settled_amount: u64,
    pub buyer_commitment: [u8; 32],
    pub seller_commitment: [u8; 32],
    pub zopa_phase: ZopaPhase,
    pub metadata: [u8; 64],
}

/// The protocol registry: treasury address, circuit breaker, and running
/// aggregate counters. Mutated only by creation and settlement.
#[derive(Clone, Copy, PartialEq, Eq, Structural, Debug)]
pub struct ProtocolConfig {
    pub authority: AccountId,
    pub treasury: AccountId,
    pub default_decay_rate_bps: u16,
    pub default_response_window: i64,
    pub default_protocol_fee_bps: u16,
    pub default_max_rounds: u8,
    pub total_negotiations: u64,
    pub total_settled_volume: u64,
    pub total_fees_collected: u64,
    pub is_paused: bool,
}

impl NegotiationParams {
    /// The creation-time validation, all-or-nothing.
    pub open spec fn valid(self) -> bool {
        &&& 0 < self.max_rounds <= 20
        &&& self.decay_rate_bps <= 1000
        &&& self.response_window >= 60
        &&& self.global_deadline_offset >= 300
        &&& self.escrow_amount >= 100_000
        &&& 100 <= self.min_offer_bps <= 10000
        &&& self.protocol_fee_bps <= 500
    }
}

impl NegotiationStatus {
    /// A terminal record admits no further transition but closure.
    pub open spec fn is_terminal(self) -> bool {
        self == NegotiationStatus::Settled
            || self == NegotiationStatus::Expired
            || self == NegotiationStatus::Rejected
    }

    /// An offer from one side is pending the other side's response.
    pub open spec fn offer_pending(self) -> bool {
        self == NegotiationStatus::Proposed || self == NegotiationStatus::Countered
    }
}

impl OfferSide {
    /// The counterparty's side.
    pub open spec fn opposite(self) -> OfferSide {
        if self == OfferSide::Buyer {
            OfferSide::Seller
        } else {
            OfferSide::Buyer
        }
    }
}

impl NegotiationState {
    pub open spec fn is_buyer(self, caller: AccountId) -> bool {
        caller == self.buyer
    }

    pub open spec fn is_seller(self, caller: AccountId) -> bool {
        caller == self.seller
    }

    pub open spec fn is_party(self, caller: AccountId) -> bool {
        self.is_buyer(caller) || self.is_seller(caller)
    }

    /// Well-formedness: established at creation and preserved by every
    /// transition. The parameter ranges repeat the creation-time validation;
    /// the escrow ceiling never exceeds the locked amount; once an offer has
    /// been submitted, the pending amount sits within the bounds that were
    /// checked against the then-current ceiling, which later transitions do
    /// not move.
    pub open spec fn wf(self) -> bool {
        &&& 0 < self.max_rounds <= 20
        &&& self.decay_rate_bps <= 1000
        &&& self.response_window >= 60
        &&& self.escrow_amount >= 100_000
        &&& 100 <= self.min_offer_bps <= 10000
        &&& self.protocol_fee_bps <= 500
        &&& self.current_round <= self.max_rounds
        &&& self.effective_escrow <= self.escrow_amount
        &&& self.status == NegotiationStatus::Created ==> {
            self.current_round == 0 && self.last_offer_at == 0
        }
        &&& self.current_round > 0 ==> {
            &&& bps_part(self.effective_escrow as int, self.min_offer_bps as int)
                <= self.current_offer_amount as int
            &&& self.current_offer_amount <= self.effective_escrow
            &&& self.is_party(self.current_offer_by)
        }
    }
}

} // verus!
