//! A minimal on-ledger governance engine.
//!
//! Callers register funding proposals; token-weighted "for"/"against" support
//! is sampled live from two designated addresses; once the voting window has
//! closed and support strictly exceeds opposition, a one-time payment to the
//! beneficiary is released and the proposal is marked executed.
//!
//! The hosting ledger supplies the clock, the balance oracle and the value
//! transfer. Each operation of the core takes those readings as plain
//! arguments and states its exact effect on the stored state, so the whole
//! lifecycle — validation, timing gate, tally evaluation, and the
//! all-or-nothing ordering of transfer and state change — is verified.

pub mod contract;
pub mod laws;
pub mod state;
pub mod tally;
pub mod types;
