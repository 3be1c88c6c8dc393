//! Vote tallying: the quorum floor, the approval percentage and the decision.

use vstd::prelude::*;
use crate::error::DaoError;
use crate::proposal::ProposalStatus;

verus! {

/// The least number of votes a proposal needs before it can be finalized.
pub const QUORUM_FLOOR: u32 = 3;

/// The share of approving votes among all votes cast, as a whole percentage rounded
/// down. With no vote cast the share is zero.
pub open spec fn approval_percentage(votes_for: nat, votes_against: nat) -> nat {
    if votes_for + votes_against == 0 {
        0
    } else {
        (votes_for * 100) / (votes_for + votes_against)
    }
}

/// What finalizing decides for a tally under a threshold: nothing below the quorum
/// floor; otherwise approval when the approval percentage reaches the threshold, and
/// rejection when it does not.
pub open spec fn tally_outcome(votes_for: nat, votes_against: nat, threshold: nat) -> Result<
    ProposalStatus,
    DaoError,
> {
    if votes_for + votes_against < QUORUM_FLOOR {
        Err(DaoError::InsufficientVotes)
    } else if approval_percentage(votes_for, votes_against) >= threshold {
        Ok(ProposalStatus::Approved)
    } else {
        Ok(ProposalStatus::Rejected)
    }
}

/// Computes the approval percentage of a tally.
pub fn compute_approval_percentage(votes_for: u32, votes_against: u32) -> (pct: u32)
    ensures
        pct as nat == approval_percentage(votes_for as nat, votes_against as nat),
        pct <= 100,
{
    let total: u64 = votes_for as u64 + votes_against as u64;
    if total == 0 {
        0
    } else {
        let scaled: u64 = votes_for as u64 * 100;
        assert(scaled / total <= 100) by (nonlinear_arith)
            requires
                scaled == votes_for as u64 * 100,
                total >= votes_for as u64,
                total > 0,
        ;
        (scaled / total) as u32
    }
}

/// Decides a tally under a threshold.
pub fn decide(votes_for: u32, votes_against: u32, threshold: u32) -> (outcome: Result<
    ProposalStatus,
    DaoError,
>)
    ensures
        outcome == tally_outcome(votes_for as nat, votes_against as nat, threshold as nat),
{
    let total: u64 = votes_for as u64 + votes_against as u64;
    if total < QUORUM_FLOOR as u64 {
        Err(DaoError::InsufficientVotes)
    } else if compute_approval_percentage(votes_for, votes_against) >= threshold {
        Ok(ProposalStatus::Approved)
    } else {
        Ok(ProposalStatus::Rejected)
    }
}

} // verus!
