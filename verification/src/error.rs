//! The reasons for which the ledger refuses an operation.

use vstd::prelude::*;

verus! {

/// Why an operation was refused. A refused operation changes nothing.
#[derive(Clone, Copy, Debug, PartialEq, Eq, Structural)]
pub enum DaoError {
    /// An admin is already recorded.
    AlreadyInitialized,
    /// The voting threshold is not a percentage between 0 and 100.
    InvalidThreshold,
    /// A deposit or a requested amount is zero or negative.
    InvalidAmount,
    /// The caller is not the admin, or not a member, as the operation demands.
    Unauthorized,
    /// The voter has already cast a vote on this proposal.
    AlreadyVoted,
    /// No proposal carries this identifier.
    NotFound,
    /// Only an active proposal can be finalized.
    NotActive,
    /// Fewer votes than the quorum floor have been cast.
    InsufficientVotes,
    /// The proposal has not been approved yet.
    NotApproved,
    /// The proposal was rejected.
    Rejected,
    /// The proposal has already been executed.
    AlreadyExecuted,
    /// The treasury holds less than the proposal requests.
    InsufficientFunds,
}

impl DaoError {
    /// The refusal in words.
    pub open spec fn message_text(self) -> Seq<char> {
        match self {
            DaoError::AlreadyInitialized => "DAO already initialized"@,
            DaoError::InvalidThreshold => "Voting threshold must be between 0 and 100"@,
            DaoError::InvalidAmount => "Amount must be positive"@,
            DaoError::Unauthorized => "Caller is not authorized"@,
            DaoError::AlreadyVoted => "Already voted on this proposal"@,
            DaoError::NotFound => "Proposal not found"@,
            DaoError::NotActive => "Proposal is not active"@,
            DaoError::InsufficientVotes => "Not enough votes to finalize (minimum 3 required)"@,
            DaoError::NotApproved => "Proposal is still active, not enough votes"@,
            DaoError::Rejected => "Proposal was rejected"@,
            DaoError::AlreadyExecuted => "Proposal already executed"@,
            DaoError::InsufficientFunds => "Insufficient funds in treasury"@,
        }
    }

    /// Says the refusal in words.
    pub fn message(&self) -> (text: &'static str)
        ensures
            text@ == self.message_text(),
    {
        match self {
            DaoError::AlreadyInitialized => "DAO already initialized",
            DaoError::InvalidThreshold => "Voting threshold must be between 0 and 100",
            DaoError::InvalidAmount => "Amount must be positive",
            DaoError::Unauthorized => "Caller is not authorized",
            DaoError::AlreadyVoted => "Already voted on this proposal",
            DaoError::NotFound => "Proposal not found",
            DaoError::NotActive => "Proposal is not active",
            DaoError::InsufficientVotes => "Not enough votes to finalize (minimum 3 required)",
            DaoError::NotApproved => "Proposal is still active, not enough votes",
            DaoError::Rejected => "Proposal was rejected",
            DaoError::AlreadyExecuted => "Proposal already executed",
            DaoError::InsufficientFunds => "Insufficient funds in treasury",
        }
    }
}

} // verus!
