use haggle::create::{create_negotiation, initialize_config};
use haggle::errors::HaggleError;
use haggle::invite::accept_invitation;
use haggle::offer::submit_offer;
use haggle::settle::accept_offer;
use haggle::state::{AccountId, NegotiationParams, NegotiationState, ProtocolConfig};

fn id(tag: u128) -> AccountId {
    AccountId { hi: 2, lo: tag }
}

fn params() -> NegotiationParams {
    NegotiationParams {
        escrow_amount: 1_000_000,
        service_hash: [0u8; 32],
        max_rounds: 10,
        decay_rate_bps: 500,
        response_window: 600,
        global_deadline_offset: 3600,
        min_offer_bps: 200,
        protocol_fee_bps: 250,
        zopa_enabled: false,
    }
}

fn config() -> ProtocolConfig {
    initialize_config(id(90), id(91), 500, 600, 250, 10)
}

fn proposed(p: NegotiationParams) -> (NegotiationState, ProtocolConfig) {
    let mut c = config();
    let (mut n, _) = create_negotiation(id(1), id(2), id(3), id(4), 1, &p, 1000, &mut c)
        .expect("creation should pass");
    accept_invitation(&mut n, id(2), 1100).expect("invitation should pass");
    (n, c)
}

#[test]
fn invitation_respects_deadline_and_caller() {
    let mut c = config();
    let (mut n, _) = create_negotiation(id(1), id(2), id(3), id(4), 1, &params(), 1000, &mut c)
        .expect("creation should pass");
    let wrong = accept_invitation(&mut n, id(1), 1100);
    assert_eq!(wrong.unwrap_err(), HaggleError::Unauthorized);
    let late = accept_invitation(&mut n, id(2), 4600);
    assert_eq!(late.unwrap_err(), HaggleError::Expired);
    accept_invitation(&mut n, id(2), 4599).unwrap();
    let twice = accept_invitation(&mut n, id(2), 4599);
    assert_eq!(twice.unwrap_err(), HaggleError::InvalidState);
}

#[test]
fn offer_respects_global_deadline() {
    let (mut n, _) = proposed(params());
    let r = submit_offer(&mut n, id(4), id(1), 100_000, [0u8; 64], 4600);
    assert_eq!(r.unwrap_err(), HaggleError::Expired);
}

#[test]
fn offer_respects_response_window() {
    let (mut n, _) = proposed(params());
    // The window anchors at the invitation (1100) and spans 600 seconds.
    let r = submit_offer(&mut n, id(4), id(1), 100_000, [0u8; 64], 1700);
    assert_eq!(r.unwrap_err(), HaggleError::ResponseWindowExpired);
    assert!(submit_offer(&mut n, id(4), id(1), 100_000, [0u8; 64], 1699).is_ok());
}

#[test]
fn outsiders_cannot_offer_or_accept() {
    let (mut n, mut c) = proposed(params());
    let r = submit_offer(&mut n, id(4), id(9), 100_000, [0u8; 64], 1200);
    assert_eq!(r.unwrap_err(), HaggleError::Unauthorized);
    submit_offer(&mut n, id(4), id(1), 100_000, [0u8; 64], 1200).unwrap();
    let r = accept_offer(&mut n, id(4), id(9), 1_000_000, 1300, &mut c);
    assert_eq!(r.unwrap_err(), HaggleError::Unauthorized);
}

#[test]
fn acceptance_respects_global_deadline() {
    let (mut n, mut c) = proposed(params());
    submit_offer(&mut n, id(4), id(1), 100_000, [0u8; 64], 1200).unwrap();
    let r = accept_offer(&mut n, id(4), id(2), 1_000_000, 4600, &mut c);
    assert_eq!(r.unwrap_err(), HaggleError::Expired);
}

#[test]
fn round_budget_is_enforced() {
    let mut p = params();
    p.max_rounds = 1;
    let (mut n, _) = proposed(p);
    submit_offer(&mut n, id(4), id(1), 100_000, [0u8; 64], 1200).unwrap();
    let r = submit_offer(&mut n, id(4), id(2), 200_000, [0u8; 64], 1300);
    assert_eq!(r.unwrap_err(), HaggleError::MaxRoundsReached);
}

#[test]
fn decay_product_overflow_is_refused() {
    let mut p = params();
    p.escrow_amount = u64::MAX;
    let (mut n, _) = proposed(p);
    let r = submit_offer(&mut n, id(4), id(1), 100_000, [0u8; 64], 1200);
    assert_eq!(r.unwrap_err(), HaggleError::Overflow);
    assert_eq!(n.effective_escrow, u64::MAX);
}

#[test]
fn floor_product_overflow_is_refused() {
    let mut p = params();
    p.escrow_amount = u64::MAX;
    p.decay_rate_bps = 0;
    p.min_offer_bps = 10_000;
    let (mut n, _) = proposed(p);
    let r = submit_offer(&mut n, id(4), id(1), u64::MAX, [0u8; 64], 1200);
    assert_eq!(r.unwrap_err(), HaggleError::Overflow);
}

#[test]
fn response_window_anchor_overflow_is_refused() {
    let mut p = params();
    p.response_window = i64::MAX;
    let (mut n, _) = proposed(p);
    // last_offer_at (1100) plus the window leaves the signed 64-bit domain.
    let r = submit_offer(&mut n, id(4), id(1), 100_000, [0u8; 64], 1200);
    assert_eq!(r.unwrap_err(), HaggleError::Overflow);
}

#[test]
fn short_vault_is_refused_at_settlement() {
    let (mut n, mut c) = proposed(params());
    submit_offer(&mut n, id(4), id(1), 100_000, [0u8; 64], 1200).unwrap();
    let r = accept_offer(&mut n, id(4), id(2), 99_999, 1300, &mut c);
    assert_eq!(r.unwrap_err(), HaggleError::Overflow);
    assert_eq!(c.total_settled_volume, 0);
}
