//! A trustless two-party escrow: one party deposits custody of one fungible
//! asset and records the terms of the trade; a second party later completes
//! the trade, with both transfers and the escrow teardown performed as a
//! single all-or-nothing step.  Custody is held by an authority derived
//! deterministically from the program's own identity, so no human key can
//! move the escrowed funds.

pub mod account_id;
pub mod key_map;
pub mod ledger;
pub mod tokenizer;
pub mod errors;
pub mod authority;
pub mod initialize;
pub mod exchange;
pub mod laws;
