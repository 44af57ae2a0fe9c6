use haggle::create::{create_negotiation, initialize_config};
use haggle::errors::HaggleError;
use haggle::invite::accept_invitation;
use haggle::offer::submit_offer;
use haggle::settle::accept_offer;
use haggle::state::{
    AccountId, NegotiationParams, NegotiationState, NegotiationStatus, OfferSide, ProtocolConfig,
    ZopaPhase,
};

fn id(tag: u128) -> AccountId {
    AccountId { hi: tag, lo: tag.wrapping_mul(7) }
}

fn default_params() -> NegotiationParams {
    NegotiationParams {
        escrow_amount: 1_000_000,
        service_hash: [7u8; 32],
        max_rounds: 10,
        decay_rate_bps: 500,
        response_window: 600,
        global_deadline_offset: 3600,
        min_offer_bps: 200,
        protocol_fee_bps: 250,
        zopa_enabled: false,
    }
}

fn fresh_config() -> ProtocolConfig {
    initialize_config(id(90), id(91), 500, 600, 250, 10)
}

fn created(params: NegotiationParams, now: i64) -> (NegotiationState, ProtocolConfig) {
    let mut config = fresh_config();
    let out = create_negotiation(id(1), id(2), id(3), id(4), 1, &params, now, &mut config)
        .expect("creation should pass");
    (out.0, config)
}

#[test]
fn creation_initializes_record() {
    let mut config = fresh_config();
    let (n, ev) = create_negotiation(id(1), id(2), id(3), id(4), 42, &default_params(), 1000, &mut config)
        .expect("creation should pass");
    assert_eq!(n.status, NegotiationStatus::Created);
    assert_eq!(n.effective_escrow, n.escrow_amount);
    assert_eq!(n.effective_escrow, 1_000_000);
    assert_eq!(n.current_round, 0);
    assert_eq!(n.session_id, 42);
    assert_eq!(n.buyer, id(1));
    assert_eq!(n.seller, id(2));
    assert_eq!(n.global_deadline, 4600);
    assert_eq!(n.created_at, 1000);
    assert_eq!(n.last_offer_at, 0);
    assert_eq!(n.zopa_phase, ZopaPhase::Skipped);
    assert_eq!(config.total_negotiations, 1);
    assert_eq!(ev.escrow_amount, 1_000_000);
    assert_eq!(ev.global_deadline, 4600);
    assert_eq!(ev.timestamp, 1000);
}

#[test]
fn creation_arms_zopa_when_enabled() {
    let mut params = default_params();
    params.zopa_enabled = true;
    let (n, _) = created(params, 1000);
    assert_eq!(n.zopa_phase, ZopaPhase::NotStarted);
}

#[test]
fn invitation_moves_created_to_proposed() {
    let (mut n, _) = created(default_params(), 1000);
    assert_eq!(accept_invitation(&mut n, id(2), 1100), Ok(()));
    assert_eq!(n.status, NegotiationStatus::Proposed);
    assert_eq!(n.last_offer_at, 1100);
}

#[test]
fn offers_alternate_and_sides_are_recorded() {
    let (mut n, _) = created(default_params(), 1000);
    accept_invitation(&mut n, id(2), 1100).unwrap();

    let ev1 = submit_offer(&mut n, id(4), id(1), 20_000, [0u8; 64], 1200).unwrap();
    assert_eq!(n.offer_side, OfferSide::Buyer);
    assert_eq!(n.status, NegotiationStatus::Proposed);
    assert_eq!(n.current_round, 1);
    assert_eq!(ev1.round, 1);
    assert_eq!(ev1.effective_escrow, 950_000);

    // The same side twice in a row is refused.
    let again = submit_offer(&mut n, id(4), id(1), 21_000, [0u8; 64], 1250);
    assert_eq!(again, Err(HaggleError::NotYourTurn));
    assert_eq!(n.current_round, 1);

    let ev2 = submit_offer(&mut n, id(4), id(2), 400_000, [1u8; 64], 1300).unwrap();
    assert_eq!(n.offer_side, OfferSide::Seller);
    assert_eq!(n.status, NegotiationStatus::Countered);
    assert_eq!(n.current_round, 2);
    assert_eq!(ev2.effective_escrow, 902_500);
    assert_eq!(n.metadata, [1u8; 64]);
}

#[test]
fn decay_never_raises_the_ceiling() {
    let (mut n, _) = created(default_params(), 1000);
    accept_invitation(&mut n, id(2), 1100).unwrap();
    let mut previous = n.effective_escrow;
    let callers = [id(1), id(2), id(1), id(2)];
    let mut now: i64 = 1200;
    for caller in callers {
        submit_offer(&mut n, id(4), caller, 100_000, [0u8; 64], now).unwrap();
        assert!(n.effective_escrow <= previous);
        assert!(n.effective_escrow <= n.escrow_amount);
        previous = n.effective_escrow;
        now += 100;
    }
    // 1,000,000 decayed by 5% four times, truncating.
    assert_eq!(n.effective_escrow, 814_507);
}

#[test]
fn settlement_pays_seller_fee_and_refund() {
    let (mut n, mut config) = created(default_params(), 1000);
    accept_invitation(&mut n, id(2), 1100).unwrap();
    submit_offer(&mut n, id(4), id(1), 20_000, [0u8; 64], 1200).unwrap();

    let (transfers, ev) = accept_offer(&mut n, id(4), id(2), 1_000_000, 1300, &mut config)
        .expect("acceptance should pass");
    assert_eq!(transfers.protocol_fee, 500);
    assert_eq!(transfers.seller_payout, 19_500);
    assert_eq!(transfers.buyer_refund, 980_000);
    assert_eq!(
        transfers.seller_payout + transfers.protocol_fee + transfers.buyer_refund,
        1_000_000
    );
    assert_eq!(n.status, NegotiationStatus::Settled);
    assert_eq!(n.settled_amount, 20_000);
    assert_eq!(n.settled_at, 1300);
    assert_eq!(config.total_settled_volume, 20_000);
    assert_eq!(config.total_fees_collected, 500);
    assert_eq!(ev.settled_amount, 20_000);
    assert_eq!(ev.total_rounds, 1);
    assert_eq!(ev.escrow_decay_total, 50_000);
}

#[test]
fn own_offer_cannot_be_accepted() {
    let (mut n, mut config) = created(default_params(), 1000);
    accept_invitation(&mut n, id(2), 1100).unwrap();
    submit_offer(&mut n, id(4), id(1), 20_000, [0u8; 64], 1200).unwrap();
    let r = accept_offer(&mut n, id(4), id(1), 1_000_000, 1300, &mut config);
    assert_eq!(r.unwrap_err(), HaggleError::Unauthorized);
    assert_eq!(n.status, NegotiationStatus::Proposed);
    assert_eq!(config.total_settled_volume, 0);
}
