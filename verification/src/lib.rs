//! A verified wagering ledger: a fixed-layout escrow record, an instruction
//! codec, and the two instruction handlers (initialize, bet settlement) of a
//! coin-flip escrow program, with their state transitions proved.
//!
//! The host runtime (account storage, value transfers, the clock, signature
//! checks) stays outside: each handler takes the facts it needs from the
//! runtime as plain values and returns the effects the runtime must apply.

pub mod codec;
pub mod engine;
pub mod laws;
pub mod state;
