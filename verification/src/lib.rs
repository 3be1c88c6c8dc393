//! A governance ledger for an emergency fund: membership, a shared treasury and the
//! life of a funding proposal from submission to settlement.
//!
//! Members vote on proposals to release funds to a requester. A proposal is
//! submitted, voted on, finalized by its tally under the voting threshold, and, if
//! approved, executed against the treasury.
//!
//! - [`address`], [`error`], [`proposal`]: the values the ledger speaks of.
//! - [`access`], [`treasury`], [`voting`], [`lifecycle`]: the rules, each decided on
//!   plain values, so that a host that keeps the records elsewhere can apply them.
//! - [`state`]: the ledger as mathematics sees it, and what every operation makes of it.
//! - [`dao`]: the ledger kept in memory, which carries out the operations.
//! - [`laws`]: what holds of the ledger whatever calls are made on it.

pub mod access;
pub mod address;
pub mod dao;
pub mod error;
pub mod laws;
pub mod lifecycle;
pub mod proposal;
pub mod state;
pub mod treasury;
pub mod voting;

pub use crate::address::{Address, AuthenticatedCaller};
pub use crate::dao::EmergencyFundDAO;
pub use crate::error::DaoError;
pub use crate::proposal::{Proposal, ProposalStatus};
