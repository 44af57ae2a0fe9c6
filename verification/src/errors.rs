//! The error taxonomy shared by every transition.

use vstd::prelude::*;

verus! {

/// Why a transition was refused. Every refusal is total: the record, the
/// registry and the escrow are left exactly as they were.
#[derive(Clone, Copy, PartialEq, Eq, Structural, Debug)]
pub enum HaggleError {
    /// The record's status does not admit the requested transition.
    InvalidState,
    /// The caller is not an eligible party, or is the author of the offer
    /// they tried to accept or reject.
    Unauthorized,
    /// Strict alternation violated: the caller's side made the latest offer.
    NotYourTurn,
    /// The global deadline has passed.
    Expired,
    /// The rolling response window anchored at the latest offer has lapsed.
    ResponseWindowExpired,
    /// The offer is below the minimum-offer floor.
    OfferTooLow,
    /// The offer exceeds the decayed escrow ceiling.
    OfferExceedsEscrow,
    /// The round budget fixed at creation is spent.
    MaxRoundsReached,
    /// A creation-time parameter is out of range.
    InvalidParams,
    /// The protocol registry's circuit breaker is engaged.
    Paused,
    /// A revealed limit does not match its earlier commitment.
    ZopaCommitmentMismatch,
    /// The revealed limits leave no zone of possible agreement.
    NoZopa,
    /// Value-bearing arithmetic would exceed its domain.
    Overflow,
}

} // verus!
