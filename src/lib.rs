//! A single-owner custodial vault, written as a verified state machine.
//!
//! The host ledger runtime decodes instructions, resolves accounts and commits
//! or discards their changes; this library decides, for each instruction, what
//! the accounts become or which error aborts the transaction.
pub mod codec;
pub mod errors;
pub mod events;
pub mod instructions;
pub mod laws;
pub mod program;
pub mod state;
