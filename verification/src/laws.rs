//! Protocol-wide laws, proved once over the transition specifications.

use vstd::prelude::*;
use crate::errors::HaggleError;
use crate::expire::expire_error;
use crate::math::{bps_part, lemma_bps_part_le};
use crate::offer::{offer_error, offer_next};
use crate::reject::reject_error;
use crate::settle::{accept_error, settlement_transfers};
use crate::state::{AccountId, NegotiationState, OfferSide, ProtocolConfig};

verus! {

/// Strict alternation, first half: an accepted offer after the first round
/// flips the recorded side to the opposite of the side that held the
/// pending offer. Holds whenever the two parties are distinct; a record
/// whose buyer and seller coincide defeats turn-taking, since the one
/// caller stands on both sides.
pub proof fn lemma_offer_alternates(
    n: NegotiationState,
    caller: AccountId,
    amount: u64,
    metadata: [u8; 64],
    now: i64,
)
    requires
        n.wf(),
        n.buyer != n.seller,
        n.current_round > 0,
        offer_error(n, caller, amount, now) is None,
    ensures
        offer_next(n, caller, amount, metadata, now).offer_side == n.offer_side.opposite(),
        offer_next(n, caller, amount, metadata, now).offer_side != n.offer_side,
{
}

/// Strict alternation, second half: after an accepted offer, a further
/// offer from any party standing on the side that just offered is refused
/// with `NotYourTurn`, whatever amount and clock reading it carries.
pub proof fn lemma_same_side_twice_fails(
    n: NegotiationState,
    caller: AccountId,
    amount: u64,
    metadata: [u8; 64],
    now: i64,
    caller2: AccountId,
    amount2: u64,
    now2: i64,
)
    requires
        n.wf(),
        n.buyer != n.seller,
        offer_error(n, caller, amount, now) is None,
        ({
            let m = offer_next(n, caller, amount, metadata, now);
            ||| m.is_buyer(caller2) && m.offer_side == OfferSide::Buyer
            ||| m.is_seller(caller2) && m.offer_side == OfferSide::Seller
        }),
    ensures
        offer_error(offer_next(n, caller, amount, metadata, now), caller2, amount2, now2)
            == Some(HaggleError::NotYourTurn),
{
}

/// Decay monotonicity: an accepted offer never raises the escrow ceiling,
/// and the ceiling never exceeds the amount locked at creation.
pub proof fn lemma_decay_monotone(
    n: NegotiationState,
    caller: AccountId,
    amount: u64,
    metadata: [u8; 64],
    now: i64,
)
    requires
        n.wf(),
        offer_error(n, caller, amount, now) is None,
    ensures
        offer_next(n, caller, amount, metadata, now).effective_escrow <= n.effective_escrow,
        offer_next(n, caller, amount, metadata, now).escrow_amount == n.escrow_amount,
        offer_next(n, caller, amount, metadata, now).effective_escrow <= n.escrow_amount,
{
    lemma_bps_part_le(n.effective_escrow as int, n.decay_rate_bps as int);
}

/// Offer bound: every accepted amount sits between the minimum-offer floor
/// and the ceiling, both taken against the post-decay ceiling the record
/// carries from the moment of submission on.
pub proof fn lemma_offer_bound(
    n: NegotiationState,
    caller: AccountId,
    amount: u64,
    metadata: [u8; 64],
    now: i64,
)
    requires
        n.wf(),
        offer_error(n, caller, amount, now) is None,
    ensures
        bps_part(
            offer_next(n, caller, amount, metadata, now).effective_escrow as int,
            n.min_offer_bps as int,
        ) <= amount,
        amount <= offer_next(n, caller, amount, metadata, now).effective_escrow,
{
    lemma_bps_part_le(n.effective_escrow as int, n.decay_rate_bps as int);
}

/// Settlement conservation: the three payouts split the vault balance
/// exactly — seller payout plus protocol fee plus buyer refund equals the
/// escrow balance at settlement time, with nothing destroyed.
pub proof fn lemma_settlement_conserves(
    n: NegotiationState,
    caller: AccountId,
    vault_balance: u64,
    now: i64,
    config: ProtocolConfig,
)
    requires
        n.wf(),
        accept_error(n, caller, vault_balance, now, config) is None,
    ensures
        settlement_transfers(n, vault_balance).seller_payout
            + settlement_transfers(n, vault_balance).protocol_fee
            + settlement_transfers(n, vault_balance).buyer_refund == vault_balance,
{
    lemma_bps_part_le(n.current_offer_amount as int, n.protocol_fee_bps as int);
}

/// One offer submission, as data: everything `submit_offer` reads besides
/// the record itself.
pub struct OfferStep {
    pub caller: AccountId,
    pub amount: u64,
    pub metadata: [u8; 64],
    pub now: i64,
}

/// Every step of the sequence passes the offer checks when played against
/// the record the steps before it produce.
pub open spec fn offers_accepted(n: NegotiationState, steps: Seq<OfferStep>) -> bool
    decreases steps.len(),
{
    steps.len() == 0 || {
        &&& offer_error(n, steps[0].caller, steps[0].amount, steps[0].now) is None
        &&& offers_accepted(
            offer_next(n, steps[0].caller, steps[0].amount, steps[0].metadata, steps[0].now),
            steps.drop_first(),
        )
    }
}

/// The record after the first `k` steps of the sequence have been played.
pub open spec fn state_at(n: NegotiationState, steps: Seq<OfferStep>, k: int) -> NegotiationState
    decreases k,
{
    if k <= 0 {
        n
    } else {
        state_at(
            offer_next(n, steps[0].caller, steps[0].amount, steps[0].metadata, steps[0].now),
            steps.drop_first(),
            k - 1,
        )
    }
}

/// An accepted offer preserves well-formedness, keeps the parties, the
/// locked amount and the parameters, advances the round by one, and never
/// raises the escrow ceiling.
pub proof fn lemma_offer_next_wf(
    n: NegotiationState,
    caller: AccountId,
    amount: u64,
    metadata: [u8; 64],
    now: i64,
)
    requires
        n.wf(),
        offer_error(n, caller, amount, now) is None,
    ensures
        offer_next(n, caller, amount, metadata, now).wf(),
        offer_next(n, caller, amount, metadata, now).buyer == n.buyer,
        offer_next(n, caller, amount, metadata, now).seller == n.seller,
        offer_next(n, caller, amount, metadata, now).escrow_amount == n.escrow_amount,
        offer_next(n, caller, amount, metadata, now).current_round == n.current_round + 1,
        offer_next(n, caller, amount, metadata, now).effective_escrow <= n.effective_escrow,
{
    lemma_bps_part_le(n.effective_escrow as int, n.decay_rate_bps as int);
}

/// Along an accepted sequence, each prefix state is well-formed, carries
/// the original parties and locked amount, counts one round per step played,
/// admits the step that follows it, advances by exactly that step, and
/// never sees the ceiling rise.
pub proof fn lemma_state_at_step(n: NegotiationState, steps: Seq<OfferStep>, k: int)
    requires
        n.wf(),
        offers_accepted(n, steps),
        0 <= k < steps.len(),
    ensures
        state_at(n, steps, k).wf(),
        state_at(n, steps, k).buyer == n.buyer,
        state_at(n, steps, k).seller == n.seller,
        state_at(n, steps, k).escrow_amount == n.escrow_amount,
        state_at(n, steps, k).current_round == n.current_round + k,
        offer_error(state_at(n, steps, k), steps[k].caller, steps[k].amount, steps[k].now)
            is None,
        state_at(n, steps, k + 1) == offer_next(
            state_at(n, steps, k),
            steps[k].caller,
            steps[k].amount,
            steps[k].metadata,
            steps[k].now,
        ),
        state_at(n, steps, k + 1).effective_escrow
            <= state_at(n, steps, k).effective_escrow,
    decreases k,
{
    let m = offer_next(n, steps[0].caller, steps[0].amount, steps[0].metadata, steps[0].now);
    lemma_offer_next_wf(n, steps[0].caller, steps[0].amount, steps[0].metadata, steps[0].now);
    if k > 0 {
        lemma_state_at_step(m, steps.drop_first(), k - 1);
    }
}

/// Strict alternation over whole sequences: along any accepted sequence of
/// offers between distinct parties, from the first played round onward the
/// recorded side flips at every step.
pub proof fn lemma_sequence_alternation(n: NegotiationState, steps: Seq<OfferStep>, i: int)
    requires
        n.wf(),
        n.buyer != n.seller,
        offers_accepted(n, steps),
        1 <= i < steps.len(),
    ensures
        state_at(n, steps, i + 1).offer_side == state_at(n, steps, i).offer_side.opposite(),
        state_at(n, steps, i + 1).offer_side != state_at(n, steps, i).offer_side,
{
    lemma_state_at_step(n, steps, i);
    lemma_offer_alternates(
        state_at(n, steps, i),
        steps[i].caller,
        steps[i].amount,
        steps[i].metadata,
        steps[i].now,
    );
}

/// Decay monotonicity over whole sequences: along any accepted sequence of
/// offers the escrow ceiling never rises, and never exceeds the amount
/// locked at creation.
pub proof fn lemma_sequence_decay_monotone(
    n: NegotiationState,
    steps: Seq<OfferStep>,
    i: int,
    j: int,
)
    requires
        n.wf(),
        offers_accepted(n, steps),
        0 <= i <= j <= steps.len(),
    ensures
        state_at(n, steps, j).effective_escrow <= state_at(n, steps, i).effective_escrow,
        state_at(n, steps, j).effective_escrow <= n.escrow_amount,
    decreases j,
{
    if j > 0 {
        lemma_state_at_step(n, steps, j - 1);
        let i2: int = if i < j {
            i
        } else {
            0
        };
        lemma_sequence_decay_monotone(n, steps, i2, j - 1);
    }
}

/// No double settlement: once a record is terminal, every offer,
/// acceptance, rejection and expiry attempt is refused with `InvalidState`
/// — and a refused transition moves no value and changes no state.
pub proof fn lemma_terminal_locked(
    n: NegotiationState,
    caller: AccountId,
    amount: u64,
    vault_balance: u64,
    now: i64,
    config: ProtocolConfig,
)
    requires
        n.status.is_terminal(),
    ensures
        offer_error(n, caller, amount, now) == Some(HaggleError::InvalidState),
        accept_error(n, caller, vault_balance, now, config) == Some(HaggleError::InvalidState),
        reject_error(n, caller, now) == Some(HaggleError::InvalidState),
        expire_error(n, now) == Some(HaggleError::InvalidState),
{
}

} // verus!
