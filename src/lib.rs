//! Loan lifecycle and escrow accounting for a peer-to-peer lending marketplace.
//!
//! A loan moves from funding through drawdown to repayment or default. Each
//! operation on a loan is specified as a step function over a model of the
//! loan's records (`model`), and the executable operations (`book`, `market`)
//! are proved to follow those steps and to keep the accounting invariants.
//! Identity attestations and credit scores, which lenders may consult, are
//! kept in `attestation` and `score`.

pub mod error;
pub mod key;
pub mod interest;
pub mod escrow;
pub mod state;
pub mod waterfall;
pub mod ledger;
pub mod events;
pub mod model;
pub mod book;
pub mod laws;
pub mod market;
pub mod signature;
pub mod attestation;
pub mod score;
