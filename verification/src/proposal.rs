//! Funding proposals and the stages of their life.

use vstd::prelude::*;
use crate::address::Address;

verus! {

/// The stage of a proposal's life. A proposal starts `Active`; finalizing makes it
/// `Approved` or `Rejected`; executing an approved proposal makes it `Executed`.
#[derive(Clone, Copy, Debug, PartialEq, Eq, Structural)]
pub enum ProposalStatus {
    Active,
    Approved,
    Rejected,
    Executed,
}

/// Whether a proposal may pass from the stage `from` to the stage `to` in one step.
pub open spec fn status_edge(from: ProposalStatus, to: ProposalStatus) -> bool {
    ||| from == ProposalStatus::Active && to == ProposalStatus::Approved
    ||| from == ProposalStatus::Active && to == ProposalStatus::Rejected
    ||| from == ProposalStatus::Approved && to == ProposalStatus::Executed
}

/// A request to release funds from the treasury to a requester.
#[derive(Debug, PartialEq, Eq)]
pub struct Proposal {
    /// The identifier given at submission, counted from 1.
    pub id: u64,
    /// Who asks for the funds.
    pub hospital: Address,
    /// A short label: for whom the funds are meant.
    pub patient_name: String,
    /// A free description of the need.
    pub patient_details: String,
    /// The amount asked for.
    pub amount_requested: i128,
    /// How many members have voted to approve.
    pub votes_for: u32,
    /// How many members have voted to reject.
    pub votes_against: u32,
    /// The stage the proposal is in.
    pub status: ProposalStatus,
    /// The time of submission, in seconds.
    pub created_at: u64,
}

/// What a proposal is, as mathematics sees it.
#[verifier::ext_equal]
pub struct ProposalView {
    pub id: nat,
    pub hospital: Seq<char>,
    pub patient_name: Seq<char>,
    pub patient_details: Seq<char>,
    pub amount_requested: int,
    pub votes_for: nat,
    pub votes_against: nat,
    pub status: ProposalStatus,
    pub created_at: nat,
}

impl ProposalView {
    /// The proposal moved to the stage `status`, all else unchanged.
    pub open spec fn with_status(self, status: ProposalStatus) -> ProposalView {
        ProposalView { status, ..self }
    }

    /// The proposal with one more vote counted, for or against.
    pub open spec fn with_vote(self, approve: bool) -> ProposalView {
        if approve {
            ProposalView { votes_for: self.votes_for + 1, ..self }
        } else {
            ProposalView { votes_against: self.votes_against + 1, ..self }
        }
    }

    /// The number of votes counted so far.
    pub open spec fn total_votes(self) -> nat {
        self.votes_for + self.votes_against
    }
}

impl View for Proposal {
    type V = ProposalView;

    open spec fn view(&self) -> ProposalView {
        ProposalView {
            id: self.id as nat,
            hospital: self.hospital@,
            patient_name: self.patient_name@,
            patient_details: self.patient_details@,
            amount_requested: self.amount_requested as int,
            votes_for: self.votes_for as nat,
            votes_against: self.votes_against as nat,
            status: self.status,
            created_at: self.created_at as nat,
        }
    }
}

impl Clone for Proposal {
    fn clone(&self) -> (copy: Proposal)
        ensures
            copy@ == self@,
    {
        Proposal {
            id: self.id,
            hospital: self.hospital.clone(),
            patient_name: self.patient_name.clone(),
            patient_details: self.patient_details.clone(),
            amount_requested: self.amount_requested,
            votes_for: self.votes_for,
            votes_against: self.votes_against,
            status: self.status,
            created_at: self.created_at,
        }
    }
}

} // verus!
