//! The ledger as mathematics sees it: what it records, what each operation makes of
//! it, and what holds of every ledger that the operations can reach.

use vstd::prelude::*;
use crate::access::{admin_check, initialization_check, MAX_THRESHOLD};
use crate::error::DaoError;
use crate::lifecycle::{executed, finalized, opened, voted};
use crate::proposal::ProposalView;
use crate::treasury::deposited;

verus! {

/// Everything the ledger records.
#[verifier::ext_equal]
pub struct DaoState {
    /// The admin, once the ledger has been initialized.
    pub admin: Option<Seq<char>>,
    /// The least approval percentage that approves a proposal.
    pub voting_threshold: nat,
    /// The number of proposals submitted since initialization.
    pub proposal_count: nat,
    /// The treasury balance.
    pub treasury: int,
    /// The proposals, by identifier.
    pub proposals: Map<nat, ProposalView>,
    /// The votes cast, by proposal and voter: `true` approves, `false` rejects.
    pub votes: Map<(nat, Seq<char>), bool>,
    /// The identities that may vote.
    pub members: Set<Seq<char>>,
}

/// Whether an operation did what `expected` names: on success the ledger became the
/// state named; on refusal the refusal is the one named and the ledger is unchanged.
pub open spec fn step_is<T>(
    outcome: Result<T, DaoError>,
    before: DaoState,
    expected: Result<DaoState, DaoError>,
    after: DaoState,
) -> bool {
    match expected {
        Ok(next) => outcome is Ok && after == next,
        Err(e) => outcome == Err::<T, DaoError>(e) && after == before,
    }
}

/// The voters whose vote on the proposal `id` is on record in `votes` with the choice
/// `approve`.
pub open spec fn voters_of(votes: Map<(nat, Seq<char>), bool>, id: nat, approve: bool) -> Set<
    Seq<char>,
> {
    Set::new(|voter: Seq<char>| votes.dom().contains((id, voter)) && votes[(id, voter)] == approve)
}

/// What a first vote of `voter` on the proposal `id` does to the voters on record: the
/// voter joins those of the proposal with the same choice, and no one else moves.
pub proof fn lemma_voters_after_vote(
    votes: Map<(nat, Seq<char>), bool>,
    id: nat,
    voter: Seq<char>,
    approve: bool,
)
    requires
        !votes.dom().contains((id, voter)),
    ensures
        !voters_of(votes, id, approve).contains(voter),
        voters_of(votes.insert((id, voter), approve), id, approve) == voters_of(
            votes,
            id,
            approve,
        ).insert(voter),
        forall|other: nat, choice: bool|
            other != id || choice != approve ==> #[trigger] voters_of(
                votes.insert((id, voter), approve),
                other,
                choice,
            ) == voters_of(votes, other, choice),
{
}

/// One call on the ledger, with its arguments.
pub enum Operation {
    Initialize { admin: Seq<char>, threshold: nat },
    AddMember { caller: Seq<char>, member: Seq<char> },
    AddFunds { amount: int },
    SubmitProposal {
        hospital: Seq<char>,
        patient_name: Seq<char>,
        patient_details: Seq<char>,
        amount_requested: int,
        now: nat,
    },
    Vote { voter: Seq<char>, id: nat, approve: bool },
    FinalizeProposal { id: nat },
    ExecuteProposal { id: nat },
}

impl DaoState {
    /// The ledger before anything has happened.
    pub open spec fn empty() -> DaoState {
        DaoState {
            admin: None,
            voting_threshold: 0,
            proposal_count: 0,
            treasury: 0,
            proposals: Map::empty(),
            votes: Map::empty(),
            members: Set::empty(),
        }
    }

    /// The proposal recorded under `id`, if there is one.
    pub open spec fn proposal(self, id: nat) -> Option<ProposalView> {
        if self.proposals.dom().contains(id) {
            Some(self.proposals[id])
        } else {
            None
        }
    }

    /// Whether `address` is a member.
    pub open spec fn is_member(self, address: Seq<char>) -> bool {
        self.members.contains(address)
    }

    /// Whether a vote of `voter` on the proposal `id` is on record.
    pub open spec fn has_voted(self, id: nat, voter: Seq<char>) -> bool {
        self.votes.dom().contains((id, voter))
    }

    /// Initializing: records the admin and the threshold, and sets the proposal
    /// counter and the treasury to zero.
    pub open spec fn initialize(self, admin: Seq<char>, threshold: nat) -> Result<
        DaoState,
        DaoError,
    > {
        match initialization_check(self.admin is Some, threshold) {
            Err(e) => Err(e),
            Ok(_) => Ok(
                DaoState {
                    admin: Some(admin),
                    voting_threshold: threshold,
                    proposal_count: 0,
                    treasury: 0,
                    ..self
                },
            ),
        }
    }

    /// Admitting a member: only the admin may, and the member is then in the
    /// membership, whether it was before or not.
    pub open spec fn add_member(self, caller: Seq<char>, member: Seq<char>) -> Result<
        DaoState,
        DaoError,
    > {
        match admin_check(self.admin, caller) {
            Err(e) => Err(e),
            Ok(_) => Ok(DaoState { members: self.members.insert(member), ..self }),
        }
    }

    /// Depositing: a positive amount is added to the treasury.
    pub open spec fn add_funds(self, amount: int) -> Result<DaoState, DaoError> {
        match deposited(self.treasury, amount) {
            Err(e) => Err(e),
            Ok(balance) => Ok(DaoState { treasury: balance, ..self }),
        }
    }

    /// The voters whose vote on the proposal `id` is on record.
    pub open spec fn voters(self, id: nat) -> Set<Seq<char>> {
        Set::new(|voter: Seq<char>| self.has_voted(id, voter))
    }

    /// Whether one more vote on the proposal `id`, if it is on record, can be counted
    /// in 32 bits.
    pub open spec fn can_count(self, id: nat, approve: bool) -> bool {
        self.proposal(id) matches Some(p) ==> if approve {
            p.votes_for < u32::MAX
        } else {
            p.votes_against < u32::MAX
        }
    }

    /// The identifier that the next submitted proposal gets.
    pub open spec fn next_id(self) -> nat {
        self.proposal_count + 1
    }

    /// Submitting: a new active proposal is recorded under the next identifier, and
    /// the counter moves on by one.
    pub open spec fn submit_proposal(
        self,
        hospital: Seq<char>,
        patient_name: Seq<char>,
        patient_details: Seq<char>,
        amount_requested: int,
        now: nat,
    ) -> Result<DaoState, DaoError> {
        match opened(
            self.next_id(),
            hospital,
            patient_name,
            patient_details,
            amount_requested,
            now,
        ) {
            Err(e) => Err(e),
            Ok(p) => Ok(
                DaoState {
                    proposal_count: self.next_id(),
                    proposals: self.proposals.insert(self.next_id(), p),
                    ..self
                },
            ),
        }
    }

    /// Voting: the vote is put on record and counted on the proposal.
    pub open spec fn vote(self, voter: Seq<char>, id: nat, approve: bool) -> Result<
        DaoState,
        DaoError,
    > {
        match voted(self.is_member(voter), self.has_voted(id, voter), self.proposal(id), approve) {
            Err(e) => Err(e),
            Ok(p) => Ok(
                DaoState {
                    proposals: self.proposals.insert(id, p),
                    votes: self.votes.insert((id, voter), approve),
                    ..self
                },
            ),
        }
    }

    /// Finalizing: the tally decides, under the ledger's threshold, whether the
    /// proposal is approved or rejected.
    pub open spec fn finalize_proposal(self, id: nat) -> Result<DaoState, DaoError> {
        match finalized(self.proposal(id), self.voting_threshold) {
            Err(e) => Err(e),
            Ok(p) => Ok(DaoState { proposals: self.proposals.insert(id, p), ..self }),
        }
    }

    /// Executing: the amount requested leaves the treasury and the proposal becomes
    /// executed, both or neither.
    pub open spec fn execute_proposal(self, id: nat) -> Result<DaoState, DaoError> {
        match executed(self.proposal(id), self.treasury) {
            Err(e) => Err(e),
            Ok((p, rest)) => Ok(
                DaoState { treasury: rest, proposals: self.proposals.insert(id, p), ..self },
            ),
        }
    }

    /// What the call `op` gives on this ledger: the ledger after it, or the refusal.
    pub open spec fn attempt(self, op: Operation) -> Result<DaoState, DaoError> {
        match op {
            Operation::Initialize { admin, threshold } => self.initialize(admin, threshold),
            Operation::AddMember { caller, member } => self.add_member(caller, member),
            Operation::AddFunds { amount } => self.add_funds(amount),
            Operation::SubmitProposal {
                hospital,
                patient_name,
                patient_details,
                amount_requested,
                now,
            } => self.submit_proposal(
                hospital,
                patient_name,
                patient_details,
                amount_requested,
                now,
            ),
            Operation::Vote { voter, id, approve } => self.vote(voter, id, approve),
            Operation::FinalizeProposal { id } => self.finalize_proposal(id),
            Operation::ExecuteProposal { id } => self.execute_proposal(id),
        }
    }

    /// The ledger after the call `op`: a refused call leaves it as it was.
    pub open spec fn apply(self, op: Operation) -> DaoState {
        match self.attempt(op) {
            Ok(next) => next,
            Err(_) => self,
        }
    }

    /// The ledger after the calls `ops`, made in order.
    pub open spec fn run(self, ops: Seq<Operation>) -> DaoState
        decreases ops.len(),
    {
        if ops.len() == 0 {
            self
        } else {
            self.run(ops.drop_last()).apply(ops.last())
        }
    }

    /// What holds of every ledger that the operations can reach from the empty one.
    ///
    /// The threshold is a percentage and the treasury is not negative. The proposals
    /// on record are numbered from 1 without a gap, each under its own identifier,
    /// each for a positive amount, and they include every proposal counted. Every
    /// vote on record is a member's, on a proposal on record, and there are no members
    /// before there is an admin. A proposal counts no more votes for it than voters
    /// have approved it on record, and no more against it than have rejected it.
    pub open spec fn consistent(self) -> bool {
        &&& self.voting_threshold <= MAX_THRESHOLD
        &&& self.treasury >= 0
        &&& self.admin is None ==> forall|address: Seq<char>| !self.members.contains(address)
        &&& forall|id: nat, approve: bool| #[trigger] voters_of(self.votes, id, approve).finite()
        &&& forall|id: nat| #[trigger]
            self.proposals.dom().contains(id) ==> {
                &&& self.proposals[id].votes_for <= voters_of(self.votes, id, true).len()
                &&& self.proposals[id].votes_against <= voters_of(self.votes, id, false).len()
            }
        &&& forall|id: nat| #[trigger]
            self.proposals.dom().contains(id) ==> {
                &&& id >= 1
                &&& self.proposals[id].id == id
                &&& self.proposals[id].amount_requested > 0
            }
        &&& forall|id: nat|
            1 <= id <= self.proposal_count ==> #[trigger] self.proposals.dom().contains(id)
        &&& forall|id: nat, below: nat|
            #[trigger] self.proposals.dom().contains(id) && 1 <= below <= id
                ==> #[trigger] self.proposals.dom().contains(below)
        &&& forall|id: nat, voter: Seq<char>| #[trigger]
            self.votes.dom().contains((id, voter)) ==> {
                &&& self.proposals.dom().contains(id)
                &&& self.members.contains(voter)
            }
    }

    /// Whether the ledger is settled: every proposal on record is counted, and counts
    /// exactly as many votes for it as voters have approved it on record, and as many
    /// against it as have rejected it.
    pub open spec fn settled(self) -> bool {
        &&& forall|id: nat| #[trigger]
            self.proposals.dom().contains(id) ==> {
                &&& id <= self.proposal_count
                &&& self.proposals[id].votes_for == voters_of(self.votes, id, true).len()
                &&& self.proposals[id].votes_against == voters_of(self.votes, id, false).len()
            }
    }

    /// The empty ledger is as `consistent` says.
    pub proof fn lemma_empty_consistent()
        ensures
            DaoState::empty().consistent(),
    {
        assert forall|id: nat, approve: bool| #[trigger]
            voters_of(DaoState::empty().votes, id, approve).finite() by {
            assert(voters_of(DaoState::empty().votes, id, approve) =~= Set::empty());
        }
    }

    /// Initializing keeps `consistent`.
    pub proof fn lemma_initialize_consistent(self, admin: Seq<char>, threshold: nat)
        requires
            self.consistent(),
        ensures
            self.initialize(admin, threshold) matches Ok(next) ==> next.consistent(),
    {
    }

    /// Admitting a member keeps `consistent`.
    pub proof fn lemma_add_member_consistent(self, caller: Seq<char>, member: Seq<char>)
        requires
            self.consistent(),
        ensures
            self.add_member(caller, member) matches Ok(next) ==> next.consistent(),
    {
    }

    /// Depositing keeps `consistent`.
    pub proof fn lemma_add_funds_consistent(self, amount: int)
        requires
            self.consistent(),
        ensures
            self.add_funds(amount) matches Ok(next) ==> next.consistent(),
    {
    }

    /// Submitting keeps `consistent`.
    pub proof fn lemma_submit_proposal_consistent(
        self,
        hospital: Seq<char>,
        patient_name: Seq<char>,
        patient_details: Seq<char>,
        amount_requested: int,
        now: nat,
    )
        requires
            self.consistent(),
        ensures
            self.submit_proposal(hospital, patient_name, patient_details, amount_requested, now)
                matches Ok(next) ==> next.consistent(),
    {
    }

    /// Voting keeps `consistent`.
    pub proof fn lemma_vote_consistent(self, voter: Seq<char>, id: nat, approve: bool)
        requires
            self.consistent(),
        ensures
            self.vote(voter, id, approve) matches Ok(next) ==> next.consistent(),
    {
        if self.vote(voter, id, approve) is Ok {
            lemma_voters_after_vote(self.votes, id, voter, approve);
        }
    }

    /// Finalizing keeps `consistent`.
    pub proof fn lemma_finalize_proposal_consistent(self, id: nat)
        requires
            self.consistent(),
        ensures
            self.finalize_proposal(id) matches Ok(next) ==> next.consistent(),
    {
    }

    /// Executing keeps `consistent`.
    pub proof fn lemma_execute_proposal_consistent(self, id: nat)
        requires
            self.consistent(),
        ensures
            self.execute_proposal(id) matches Ok(next) ==> next.consistent(),
    {
    }
}

} // verus!
