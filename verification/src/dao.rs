//! The ledger itself: it keeps the admin, the members, the treasury, the proposals
//! and the votes, and carries out the operations on them.

use vstd::prelude::*;
use crate::access::{check_admin, check_initialize};
use crate::address::{Address, AuthenticatedCaller};
use crate::error::DaoError;
use crate::lifecycle::{cast_vote, execute, finalize, held, open_proposal};
use crate::proposal::{Proposal, ProposalView};
use crate::state::{step_is, DaoState};
use crate::treasury::deposit;

verus! {

/// One vote on record.
struct VoteRecord {
    proposal_id: u64,
    voter: Address,
    approve: bool,
}

/// The proposal and the voter that a vote on record is filed under.
spec fn vote_key(record: VoteRecord) -> (nat, Seq<char>) {
    (record.proposal_id as nat, record.voter@)
}

/// The proposals by identifier: the first in the table is proposal 1.
spec fn proposals_view(proposals: Seq<Proposal>) -> Map<nat, ProposalView> {
    Map::new(|id: nat| 1 <= id <= proposals.len(), |id: nat| proposals[id - 1]@)
}

/// The membership that a list of members stands for.
spec fn members_view(members: Seq<Address>) -> Set<Seq<char>> {
    Set::new(
        |key: Seq<char>| exists|i: int| 0 <= i < members.len() && (#[trigger] members[i])@ == key,
    )
}

/// The votes that a list of vote records stands for.
spec fn votes_view(votes: Seq<VoteRecord>) -> Map<(nat, Seq<char>), bool>
    decreases votes.len(),
{
    if votes.len() == 0 {
        Map::empty()
    } else {
        votes_view(votes.drop_last()).insert(vote_key(votes.last()), votes.last().approve)
    }
}

/// A vote is on record exactly when one of the records is filed under its key.
proof fn lemma_votes_view_dom(votes: Seq<VoteRecord>, key: (nat, Seq<char>))
    ensures
        votes_view(votes).dom().contains(key) <==> exists|i: int|
            0 <= i < votes.len() && vote_key(#[trigger] votes[i]) == key,
    decreases votes.len(),
{
    if votes.len() > 0 {
        let front = votes.drop_last();
        lemma_votes_view_dom(front, key);
        if votes_view(front).dom().contains(key) {
            let i = choose|i: int| 0 <= i < front.len() && vote_key(#[trigger] front[i]) == key;
            assert(vote_key(votes[i]) == key);
        }
        if vote_key(votes.last()) == key {
            assert(vote_key(votes[votes.len() - 1]) == key);
        }
        if exists|i: int| 0 <= i < votes.len() && vote_key(#[trigger] votes[i]) == key {
            let i = choose|i: int| 0 <= i < votes.len() && vote_key(#[trigger] votes[i]) == key;
            if i < votes.len() - 1 {
                assert(vote_key(front[i]) == key);
            }
        }
    }
}

/// Replacing the proposal at one place of the table replaces it under its identifier.
proof fn lemma_proposals_view_update(proposals: Seq<Proposal>, i: int, p: Proposal)
    requires
        0 <= i < proposals.len(),
    ensures
        proposals_view(proposals.update(i, p)) == proposals_view(proposals).insert(
            (i + 1) as nat,
            p@,
        ),
{
    assert(proposals_view(proposals.update(i, p)) =~= proposals_view(proposals).insert(
        (i + 1) as nat,
        p@,
    ));
}

/// A proposal added to the table is recorded under the next identifier.
proof fn lemma_proposals_view_push(proposals: Seq<Proposal>, p: Proposal)
    ensures
        proposals_view(proposals.push(p)) == proposals_view(proposals).insert(
            (proposals.len() + 1) as nat,
            p@,
        ),
{
    assert(proposals_view(proposals.push(p)) =~= proposals_view(proposals).insert(
        (proposals.len() + 1) as nat,
        p@,
    ));
}

/// A record added to the list puts its vote on record.
proof fn lemma_votes_view_push(votes: Seq<VoteRecord>, record: VoteRecord)
    ensures
        votes_view(votes.push(record)) == votes_view(votes).insert(
            vote_key(record),
            record.approve,
        ),
{
    assert(votes.push(record).drop_last() =~= votes);
}

/// An address added to the list joins the membership.
proof fn lemma_members_view_push(members: Seq<Address>, address: Address)
    ensures
        members_view(members.push(address)) == members_view(members).insert(address@),
{
    let grown = members.push(address);
    assert forall|key: Seq<char>|
        members_view(grown).contains(key) <==> members_view(members).insert(address@).contains(
            key,
        ) by {
        if members_view(grown).contains(key) {
            let i = choose|i: int| 0 <= i < grown.len() && (#[trigger] grown[i])@ == key;
            if i < members.len() {
                assert(members[i]@ == key);
            }
        }
        if members_view(members).contains(key) {
            let i = choose|i: int| 0 <= i < members.len() && (#[trigger] members[i])@ == key;
            assert(grown[i]@ == key);
        }
        if key == address@ {
            assert(grown[members.len() as int]@ == key);
        }
    }
    assert(members_view(grown) =~= members_view(members).insert(address@));
}

/// The governance ledger of an emergency fund.
pub struct EmergencyFundDAO {
    admin: Option<Address>,
    voting_threshold: u32,
    proposal_count: u64,
    treasury: i128,
    proposals: Vec<Proposal>,
    votes: Vec<VoteRecord>,
    members: Vec<Address>,
}

impl View for EmergencyFundDAO {
    type V = DaoState;

    closed spec fn view(&self) -> DaoState {
        DaoState {
            admin: match self.admin {
                Some(address) => Some(address@),
                None => None,
            },
            voting_threshold: self.voting_threshold as nat,
            proposal_count: self.proposal_count as nat,
            treasury: self.treasury as int,
            proposals: proposals_view(self.proposals@),
            votes: votes_view(self.votes@),
            members: members_view(self.members@),
        }
    }
}

impl EmergencyFundDAO {
    /// Whether the ledger is in good order: what it records is consistent.
    pub open spec fn wf(&self) -> bool {
        self@.consistent()
    }

    /// A ledger on which nothing has happened yet.
    pub fn new() -> (dao: EmergencyFundDAO)
        ensures
            dao.wf(),
            dao@ == DaoState::empty(),
    {
        let dao = EmergencyFundDAO {
            admin: None,
            voting_threshold: 0,
            proposal_count: 0,
            treasury: 0,
            proposals: Vec::new(),
            votes: Vec::new(),
            members: Vec::new(),
        };
        proof {
            assert(dao@ =~= DaoState::empty());
            DaoState::lemma_empty_consistent();
        }
        dao
    }

    /// Initializes the ledger: records the admin and the voting threshold, and sets
    /// the proposal counter and the treasury to zero.
    ///
    /// Refused with `AlreadyInitialized` if an admin is on record, else with
    /// `InvalidThreshold` if the threshold is above 100.
    pub fn initialize(&mut self, admin: Address, voting_threshold: u32) -> (outcome: Result<
        (),
        DaoError,
    >)
        requires
            old(self).wf(),
        ensures
            final(self).wf(),
            step_is(
                outcome,
                old(self)@,
                old(self)@.initialize(admin@, voting_threshold as nat),
                final(self)@,
            ),
    {
        match check_initialize(self.admin.is_some(), voting_threshold) {
            Err(e) => Err(e),
            Ok(_) => {
                proof {
                    self@.lemma_initialize_consistent(admin@, voting_threshold as nat);
                }
                self.admin = Some(admin);
                self.voting_threshold = voting_threshold;
                self.proposal_count = 0;
                self.treasury = 0;
                Ok(())
            },
        }
    }

    /// Admits `member` to the membership, on the admin's word. Admitting a member
    /// again changes nothing.
    ///
    /// Refused with `Unauthorized` unless the caller is the admin on record.
    pub fn add_member(&mut self, admin: &AuthenticatedCaller, member: Address) -> (outcome:
        Result<(), DaoError>)
        requires
            old(self).wf(),
        ensures
            final(self).wf(),
            step_is(
                outcome,
                old(self)@,
                old(self)@.add_member(admin@, member@),
                final(self)@,
            ),
    {
        match check_admin(self.admin.as_ref(), admin) {
            Err(e) => Err(e),
            Ok(_) => {
                proof {
                    self@.lemma_add_member_consistent(admin@, member@);
                }
                if !self.is_member(&member) {
                    proof {
                        lemma_members_view_push(self.members@, member);
                    }
                    self.members.push(member);
                }
                assert(self@ =~= old(self)@.add_member(admin@, member@)->Ok_0);
                Ok(())
            },
        }
    }

    /// Deposits `amount` into the treasury. Anyone may deposit.
    ///
    /// Refused with `InvalidAmount` unless the amount is positive. The new balance
    /// must fit in 128 bits.
    pub fn add_funds(&mut self, amount: i128) -> (outcome: Result<(), DaoError>)
        requires
            old(self).wf(),
            amount > 0 ==> old(self)@.treasury + amount <= i128::MAX,
        ensures
            final(self).wf(),
            step_is(outcome, old(self)@, old(self)@.add_funds(amount as int), final(self)@),
    {
        match deposit(self.treasury, amount) {
            Err(e) => Err(e),
            Ok(balance) => {
                proof {
                    self@.lemma_add_funds_consistent(amount as int);
                }
                self.treasury = balance;
                Ok(())
            },
        }
    }

    /// Submits a proposal on behalf of the authenticated requester and gives its
    /// identifier: one more than the proposal counter, which then moves on by one.
    /// The proposal is active, has no votes, and records `now` as its time of
    /// submission.
    ///
    /// Refused with `InvalidAmount` unless the amount requested is positive. The new
    /// identifier must fit in 64 bits.
    pub fn submit_proposal(
        &mut self,
        hospital: &AuthenticatedCaller,
        patient_name: String,
        patient_details: String,
        amount_requested: i128,
        now: u64,
    ) -> (outcome: Result<u64, DaoError>)
        requires
            old(self).wf(),
            amount_requested > 0 ==> old(self)@.proposal_count < u64::MAX,
        ensures
            final(self).wf(),
            step_is(
                outcome,
                old(self)@,
                old(self)@.submit_proposal(
                    hospital@,
                    patient_name@,
                    patient_details@,
                    amount_requested as int,
                    now as nat,
                ),
                final(self)@,
            ),
            outcome matches Ok(id) ==> id == old(self)@.next_id(),
    {
        match open_proposal(
            self.proposal_count,
            hospital,
            patient_name,
            patient_details,
            amount_requested,
            now,
        ) {
            Err(e) => Err(e),
            Ok(proposal) => {
                let id = proposal.id;
                proof {
                    self@.lemma_submit_proposal_consistent(
                        hospital@,
                        patient_name@,
                        patient_details@,
                        amount_requested as int,
                        now as nat,
                    );
                    assert(self.proposal_count <= self.proposals.len()) by {
                        if self.proposal_count > 0 {
                            assert(self@.proposals.dom().contains(self.proposal_count as nat));
                        }
                    }
                }
                if self.proposal_count < self.proposals.len() as u64 {
                    proof {
                        lemma_proposals_view_update(
                            self.proposals@,
                            self.proposal_count as int,
                            proposal,
                        );
                    }
                    self.proposals.set(self.proposal_count as usize, proposal);
                } else {
                    proof {
                        lemma_proposals_view_push(self.proposals@, proposal);
                    }
                    self.proposals.push(proposal);
                }
                self.proposal_count = id;
                assert(self@ =~= old(self)@.submit_proposal(
                    hospital@,
                    patient_name@,
                    patient_details@,
                    amount_requested as int,
                    now as nat,
                )->Ok_0);
                Ok(id)
            },
        }
    }

    /// Casts the vote of the authenticated voter on a proposal: the vote is put on
    /// record and counted for or against the proposal, whatever stage short of
    /// execution the proposal is in.
    ///
    /// Refused with `Unauthorized` unless the voter is a member; else with
    /// `AlreadyVoted` if a vote of theirs on this proposal is on record; else with
    /// `NotFound` if no such proposal is on record; else with `AlreadyExecuted` if
    /// the proposal has been executed. The new count must fit in 32 bits.
    pub fn vote(&mut self, voter: &AuthenticatedCaller, proposal_id: u64, approve: bool) -> (outcome:
        Result<(), DaoError>)
        requires
            old(self).wf(),
            old(self)@.vote(voter@, proposal_id as nat, approve) is Ok ==> old(self)@.can_count(
                proposal_id as nat,
                approve,
            ),
        ensures
            final(self).wf(),
            step_is(
                outcome,
                old(self)@,
                old(self)@.vote(voter@, proposal_id as nat, approve),
                final(self)@,
            ),
    {
        let is_member = self.is_member(voter.address());
        let already_voted = self.has_voted(proposal_id, voter.address());
        let proposal = self.lookup(proposal_id);
        match cast_vote(is_member, already_voted, proposal, approve) {
            Err(e) => Err(e),
            Ok(counted) => {
                let record = VoteRecord { proposal_id, voter: voter.address().clone(), approve };
                proof {
                    self@.lemma_vote_consistent(voter@, proposal_id as nat, approve);
                    lemma_votes_view_push(self.votes@, record);
                    assert(1 <= proposal_id <= self.proposals.len());
                    lemma_proposals_view_update(self.proposals@, proposal_id - 1, counted);
                }
                self.votes.push(record);
                self.proposals.set((proposal_id - 1) as usize, counted);
                Ok(())
            },
        }
    }

    /// Finalizes a proposal: with at least three votes counted, the proposal becomes
    /// approved if the approval percentage, rounded down, reaches the voting
    /// threshold, and rejected if not. Anyone may finalize.
    ///
    /// Refused with `NotFound` if no such proposal is on record; else with
    /// `NotActive` unless the proposal is active; else with `InsufficientVotes` if
    /// fewer than three votes are counted.
    pub fn finalize_proposal(&mut self, proposal_id: u64) -> (outcome: Result<(), DaoError>)
        requires
            old(self).wf(),
        ensures
            final(self).wf(),
            step_is(
                outcome,
                old(self)@,
                old(self)@.finalize_proposal(proposal_id as nat),
                final(self)@,
            ),
    {
        let proposal = self.lookup(proposal_id);
        match finalize(proposal, self.voting_threshold) {
            Err(e) => Err(e),
            Ok(decided) => {
                proof {
                    self@.lemma_finalize_proposal_consistent(proposal_id as nat);
                    assert(1 <= proposal_id <= self.proposals.len());
                    lemma_proposals_view_update(self.proposals@, proposal_id - 1, decided);
                }
                self.proposals.set((proposal_id - 1) as usize, decided);
                Ok(())
            },
        }
    }

    /// Executes an approved proposal: the amount requested leaves the treasury and
    /// the proposal becomes executed. Anyone may execute.
    ///
    /// Refused with `NotFound` if no such proposal is on record; else with
    /// `AlreadyExecuted`, `Rejected` or `NotApproved` if the proposal is executed,
    /// rejected or still active; else with `InsufficientFunds` if the treasury holds
    /// less than the amount requested. A refusal leaves the balance and the proposal
    /// as they were, so that the execution can be tried again.
    pub fn execute_proposal(&mut self, proposal_id: u64) -> (outcome: Result<(), DaoError>)
        requires
            old(self).wf(),
        ensures
            final(self).wf(),
            step_is(
                outcome,
                old(self)@,
                old(self)@.execute_proposal(proposal_id as nat),
                final(self)@,
            ),
    {
        let proposal = self.lookup(proposal_id);
        match execute(proposal, self.treasury) {
            Err(e) => Err(e),
            Ok((settled, rest)) => {
                proof {
                    self@.lemma_execute_proposal_consistent(proposal_id as nat);
                    assert(1 <= proposal_id <= self.proposals.len());
                    lemma_proposals_view_update(self.proposals@, proposal_id - 1, settled);
                }
                self.treasury = rest;
                self.proposals.set((proposal_id - 1) as usize, settled);
                Ok(())
            },
        }
    }

    /// The proposal on record under `proposal_id`, if there is one.
    fn lookup(&self, proposal_id: u64) -> (found: Option<Proposal>)
        ensures
            held(found) == self@.proposal(proposal_id as nat),
    {
        if proposal_id >= 1 && proposal_id - 1 < self.proposals.len() as u64 {
            Some(self.proposals[(proposal_id - 1) as usize].clone())
        } else {
            None
        }
    }

    /// The proposal on record under `proposal_id`; `NotFound` if there is none.
    pub fn get_proposal(&self, proposal_id: u64) -> (outcome: Result<Proposal, DaoError>)
        ensures
            match self@.proposal(proposal_id as nat) {
                Some(p) => outcome matches Ok(found) && found@ == p,
                None => outcome == Err::<Proposal, DaoError>(DaoError::NotFound),
            },
    {
        match self.lookup(proposal_id) {
            Some(p) => Ok(p),
            None => Err(DaoError::NotFound),
        }
    }

    /// The number of proposals submitted since initialization; zero on a ledger that
    /// was never initialized and has seen no submission.
    pub fn get_proposal_count(&self) -> (count: u64)
        ensures
            count == self@.proposal_count,
    {
        self.proposal_count
    }

    /// The treasury balance; zero before any deposit.
    pub fn get_treasury_balance(&self) -> (balance: i128)
        ensures
            balance == self@.treasury,
    {
        self.treasury
    }

    /// The voting threshold; zero on a ledger that was never initialized.
    pub fn get_voting_threshold(&self) -> (threshold: u32)
        ensures
            threshold == self@.voting_threshold,
    {
        self.voting_threshold
    }

    /// Whether `address` is a member.
    pub fn is_member(&self, address: &Address) -> (member: bool)
        ensures
            member == self@.is_member(address@),
    {
        let mut i: usize = 0;
        while i < self.members.len()
            invariant
                i <= self.members.len(),
                forall|j: int| 0 <= j < i ==> (#[trigger] self.members[j])@ != address@,
            decreases self.members.len() - i,
        {
            if self.members[i] == *address {
                return true;
            }
            i += 1;
        }
        false
    }

    /// Whether a vote of `voter` on the proposal `proposal_id` is on record.
    pub fn has_voted(&self, proposal_id: u64, voter: &Address) -> (voted: bool)
        ensures
            voted == self@.has_voted(proposal_id as nat, voter@),
    {
        let ghost key = (proposal_id as nat, voter@);
        proof {
            lemma_votes_view_dom(self.votes@, key);
        }
        let mut i: usize = 0;
        while i < self.votes.len()
            invariant
                i <= self.votes.len(),
                key == (proposal_id as nat, voter@),
                forall|j: int| 0 <= j < i ==> vote_key(#[trigger] self.votes[j]) != key,
            decreases self.votes.len() - i,
        {
            if self.votes[i].proposal_id == proposal_id && self.votes[i].voter == *voter {
                proof {
                    lemma_votes_view_dom(self.votes@, key);
                    assert(vote_key(self.votes@[i as int]) == key);
                }
                return true;
            }
            i += 1;
        }
        false
    }
}

} // verus!
