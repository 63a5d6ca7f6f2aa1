//! A ledger that coordinates threshold secret recovery.
//!
//! A user splits a secret across three custodian nodes. Recovering it later
//! requires confirmations from at least two of the three custodians. An
//! account ledger backs the protocol economically: finalizing a recovery pays
//! each assigned custodian one unit out of the user's balance.
//!
//! The crate is organised in three modules:
//! - [`model`] holds the mathematical model: view types for every record and
//!   a transition function for every operation of the ledger.
//! - [`ledger`] holds the executable [`ledger::KeyLedger`], each method of
//!   which is proved to implement the corresponding transition of the model.
//! - [`laws`] states and proves the protocol-level properties of the
//!   transitions, such as idempotence of registration and order-independence
//!   of reaching the confirmation threshold.

pub mod ledger;
pub mod laws;
pub mod model;
