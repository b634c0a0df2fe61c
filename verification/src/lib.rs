//! An escrowed, ascending-price auction with asynchronous, multi-asset
//! settlement, written for a deterministic, message-driven ledger.
//!
//! Every operation is a single, atomically applied transition of an
//! [`auction::Contract`] or a [`factory::Contract`]. Outbound value transfers
//! are never performed here: each transition returns the exact sequence of
//! [`gateway::Dispatch`] messages that the host must send, fire-and-forget,
//! after the transition has been committed. The outcome of an asynchronous
//! deployment is fed back in as a [`factory::DeployOutcome`] token by a later,
//! independent callback operation.

pub mod account;
pub mod auction;
pub mod errors;
pub mod factory;
pub mod gateway;
pub mod laws;
