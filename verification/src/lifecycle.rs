//! The life of one proposal: how it is opened, how a vote is counted on it, how it is
//! finalized and how it is executed. Each rule takes what the ledger holds for the
//! proposal and says what the ledger holds afterwards, or why the step is refused.

use vstd::prelude::*;
use crate::access::member_check;
use crate::address::AuthenticatedCaller;
use crate::error::DaoError;
use crate::proposal::{Proposal, ProposalStatus, ProposalView};
use crate::treasury::{withdraw, withdrawn};
use crate::voting::{decide, tally_outcome};

verus! {

/// The proposal that a submission creates: active, with no votes. The amount must be
/// positive.
pub open spec fn opened(
    id: nat,
    hospital: Seq<char>,
    patient_name: Seq<char>,
    patient_details: Seq<char>,
    amount_requested: int,
    now: nat,
) -> Result<ProposalView, DaoError> {
    if amount_requested <= 0 {
        Err(DaoError::InvalidAmount)
    } else {
        Ok(
            ProposalView {
                id,
                hospital,
                patient_name,
                patient_details,
                amount_requested,
                votes_for: 0,
                votes_against: 0,
                status: ProposalStatus::Active,
                created_at: now,
            },
        )
    }
}

/// The proposal after a vote. The voter must be a member, must not have voted on this
/// proposal before, the proposal must exist and must not be executed: the first of
/// these that fails is reported.
pub open spec fn voted(
    is_member: bool,
    already_voted: bool,
    proposal: Option<ProposalView>,
    approve: bool,
) -> Result<ProposalView, DaoError> {
    if member_check(is_member) is Err {
        Err(DaoError::Unauthorized)
    } else if already_voted {
        Err(DaoError::AlreadyVoted)
    } else {
        match proposal {
            None => Err(DaoError::NotFound),
            Some(p) => if p.status == ProposalStatus::Executed {
                Err(DaoError::AlreadyExecuted)
            } else {
                Ok(p.with_vote(approve))
            },
        }
    }
}

/// The proposal after finalizing under `threshold`. The proposal must exist, be
/// active and have reached the quorum floor: the first of these that fails is
/// reported. The tally then decides between approval and rejection.
pub open spec fn finalized(proposal: Option<ProposalView>, threshold: nat) -> Result<
    ProposalView,
    DaoError,
> {
    match proposal {
        None => Err(DaoError::NotFound),
        Some(p) => if p.status != ProposalStatus::Active {
            Err(DaoError::NotActive)
        } else {
            match tally_outcome(p.votes_for, p.votes_against, threshold) {
                Ok(status) => Ok(p.with_status(status)),
                Err(e) => Err(e),
            }
        },
    }
}

/// The proposal and the treasury balance after executing. The proposal must exist and
/// be approved, and the balance must cover the amount requested.
pub open spec fn executed(proposal: Option<ProposalView>, balance: int) -> Result<
    (ProposalView, int),
    DaoError,
> {
    match proposal {
        None => Err(DaoError::NotFound),
        Some(p) => match p.status {
            ProposalStatus::Executed => Err(DaoError::AlreadyExecuted),
            ProposalStatus::Rejected => Err(DaoError::Rejected),
            ProposalStatus::Active => Err(DaoError::NotApproved),
            ProposalStatus::Approved => match withdrawn(balance, p.amount_requested) {
                Ok(rest) => Ok((p.with_status(ProposalStatus::Executed), rest)),
                Err(e) => Err(e),
            },
        },
    }
}

/// What the ledger holds for a proposal, if it holds one, as mathematics sees it.
pub open spec fn held(proposal: Option<Proposal>) -> Option<ProposalView> {
    match proposal {
        Some(p) => Some(p@),
        None => None,
    }
}

/// Whether an executable outcome is the proposal, or the refusal, that `expected` names.
pub open spec fn proposal_is(
    outcome: Result<Proposal, DaoError>,
    expected: Result<ProposalView, DaoError>,
) -> bool {
    match outcome {
        Ok(p) => expected == Ok::<ProposalView, DaoError>(p@),
        Err(e) => expected == Err::<ProposalView, DaoError>(e),
    }
}

/// Whether an executable outcome is the proposal and balance, or the refusal, that
/// `expected` names.
pub open spec fn settlement_is(
    outcome: Result<(Proposal, i128), DaoError>,
    expected: Result<(ProposalView, int), DaoError>,
) -> bool {
    match outcome {
        Ok((p, rest)) => expected == Ok::<(ProposalView, int), DaoError>((p@, rest as int)),
        Err(e) => expected == Err::<(ProposalView, int), DaoError>(e),
    }
}

/// Opens the proposal that follows `count` earlier ones: its identifier is
/// `count + 1`, and `now` is recorded as its time of submission.
pub fn open_proposal(
    count: u64,
    hospital: &AuthenticatedCaller,
    patient_name: String,
    patient_details: String,
    amount_requested: i128,
    now: u64,
) -> (outcome: Result<Proposal, DaoError>)
    requires
        amount_requested > 0 ==> count < u64::MAX,
    ensures
        proposal_is(
            outcome,
            opened(
                count as nat + 1,
                hospital@,
                patient_name@,
                patient_details@,
                amount_requested as int,
                now as nat,
            ),
        ),
{
    if amount_requested <= 0 {
        Err(DaoError::InvalidAmount)
    } else {
        Ok(
            Proposal {
                id: count + 1,
                hospital: hospital.address().clone(),
                patient_name,
                patient_details,
                amount_requested,
                votes_for: 0,
                votes_against: 0,
                status: ProposalStatus::Active,
                created_at: now,
            },
        )
    }
}

/// Counts a vote on a proposal. `is_member` says whether the voter is a member,
/// `already_voted` whether a vote of theirs on this proposal is on record.
pub fn cast_vote(
    is_member: bool,
    already_voted: bool,
    proposal: Option<Proposal>,
    approve: bool,
) -> (outcome: Result<Proposal, DaoError>)
    requires
        voted(is_member, already_voted, held(proposal), approve) matches Ok(counted) ==> {
            &&& counted.votes_for <= u32::MAX
            &&& counted.votes_against <= u32::MAX
        },
    ensures
        proposal_is(outcome, voted(is_member, already_voted, held(proposal), approve)),
{
    if !is_member {
        return Err(DaoError::Unauthorized);
    }
    if already_voted {
        return Err(DaoError::AlreadyVoted);
    }
    match proposal {
        None => Err(DaoError::NotFound),
        Some(p) => {
            let mut p = p;
            match p.status {
                ProposalStatus::Executed => Err(DaoError::AlreadyExecuted),
                _ => {
                    if approve {
                        p.votes_for = p.votes_for + 1;
                    } else {
                        p.votes_against = p.votes_against + 1;
                    }
                    Ok(p)
                },
            }
        },
    }
}

/// Finalizes a proposal under the voting threshold.
pub fn finalize(proposal: Option<Proposal>, voting_threshold: u32) -> (outcome: Result<
    Proposal,
    DaoError,
>)
    ensures
        proposal_is(outcome, finalized(held(proposal), voting_threshold as nat)),
{
    match proposal {
        None => Err(DaoError::NotFound),
        Some(p) => {
            let mut p = p;
            match p.status {
                ProposalStatus::Active => {
                    match decide(p.votes_for, p.votes_against, voting_threshold) {
                        Ok(status) => {
                            p.status = status;
                            Ok(p)
                        },
                        Err(e) => Err(e),
                    }
                },
                _ => Err(DaoError::NotActive),
            }
        },
    }
}

/// Executes a proposal against the treasury balance: gives the executed proposal and
/// the balance that is left.
pub fn execute(proposal: Option<Proposal>, balance: i128) -> (outcome: Result<
    (Proposal, i128),
    DaoError,
>)
    requires
        proposal matches Some(p) ==> p.amount_requested > 0,
    ensures
        settlement_is(outcome, executed(held(proposal), balance as int)),
{
    match proposal {
        None => Err(DaoError::NotFound),
        Some(p) => {
            let mut p = p;
            match p.status {
                ProposalStatus::Approved => {
                    match withdraw(balance, p.amount_requested) {
                        Ok(rest) => {
                            p.status = ProposalStatus::Executed;
                            Ok((p, rest))
                        },
                        Err(e) => Err(e),
                    }
                },
                ProposalStatus::Executed => Err(DaoError::AlreadyExecuted),
                ProposalStatus::Rejected => Err(DaoError::Rejected),
                ProposalStatus::Active => Err(DaoError::NotApproved),
            }
        },
    }
}

} // verus!
