//! A two-party bilateral negotiation protocol over an escrowed sum of value.
//!
//! A buyer and seller exchange alternating offers against a shrinking escrow
//! ceiling until one side accepts, the negotiation is rejected, or a deadline
//! lapses. This crate holds the negotiation state machine and its settlement
//! calculus: turn-taking, offer validity, escrow decay, deadline enforcement,
//! fee and payout computation, and terminal-state transitions. Every
//! transition is a pure function of the record, the supplied clock reading,
//! and the authenticated caller identity; value custody, addressing, and
//! storage are left to the environment, which performs the payout amounts the
//! transitions return.

pub mod close;
pub mod create;
pub mod errors;
pub mod events;
pub mod expire;
pub mod invite;
pub mod laws;
pub mod math;
pub mod offer;
pub mod reject;
pub mod settle;
pub mod state;
