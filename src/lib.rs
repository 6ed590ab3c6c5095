//! A persisted counter that can be created, incremented and decremented.
//!
//! The host ledger resolves the accounts of each instruction; this library
//! checks them explicitly (initialised or not, signer, funding) and then
//! applies the one state change that the instruction stands for.

pub mod accounts;
pub mod instructions;
pub mod laws;

pub use accounts::{AccountSlot, BaseAccount, CounterError, Create, Decrement, Increment, Payer};
pub use instructions::{create, decrement, increment};
