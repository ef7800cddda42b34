//! Reliable delivery of a signed transaction over an unreliable RPC channel.
//!
//! The library holds the decisions of the delivery protocol and makes no
//! network call itself:
//!
//! - [`policy`]: the balance guard, the compute-unit limit and the priority
//!   fee;
//! - [`instruction`] and [`transaction`]: the instruction list of the
//!   transaction, and its building and signing;
//! - [`status`]: what a signature-status response means;
//! - [`delivery`]: the request as a state machine, which names each network
//!   call and pause for the caller to perform and takes its result;
//! - [`laws`]: what holds of every run of that machine;
//! - [`ledger`]: the ledger's own types that the library carries.

pub mod delivery;
pub mod instruction;
pub mod laws;
pub mod ledger;
pub mod policy;
pub mod status;
pub mod transaction;
