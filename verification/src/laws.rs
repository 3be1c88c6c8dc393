//! What holds of the ledger whatever calls are made on it.

use vstd::prelude::*;
use vstd::set_lib::lemma_set_disjoint_lens;
use crate::error::DaoError;
use crate::proposal::{status_edge, ProposalStatus};
use crate::state::{lemma_voters_after_vote, voters_of, DaoState, Operation};
use crate::voting::{tally_outcome, QUORUM_FLOOR};

verus! {

/// Every call keeps a consistent ledger consistent.
pub proof fn law_apply_consistent(s: DaoState, op: Operation)
    requires
        s.consistent(),
    ensures
        s.apply(op).consistent(),
{
    match op {
        Operation::Initialize { admin, threshold } => {
            s.lemma_initialize_consistent(admin, threshold);
        },
        Operation::AddMember { caller, member } => {
            s.lemma_add_member_consistent(caller, member);
        },
        Operation::AddFunds { amount } => {
            s.lemma_add_funds_consistent(amount);
        },
        Operation::SubmitProposal {
            hospital,
            patient_name,
            patient_details,
            amount_requested,
            now,
        } => {
            s.lemma_submit_proposal_consistent(
                hospital,
                patient_name,
                patient_details,
                amount_requested,
                now,
            );
        },
        Operation::Vote { voter, id, approve } => {
            s.lemma_vote_consistent(voter, id, approve);
        },
        Operation::FinalizeProposal { id } => {
            s.lemma_finalize_proposal_consistent(id);
        },
        Operation::ExecuteProposal { id } => {
            s.lemma_execute_proposal_consistent(id);
        },
    }
}

/// Whatever calls are made on a consistent ledger, in whatever order, the ledger
/// stays consistent. In particular the treasury balance is never negative.
pub proof fn law_run_consistent(s: DaoState, ops: Seq<Operation>)
    requires
        s.consistent(),
    ensures
        s.run(ops).consistent(),
        s.run(ops).treasury >= 0,
    decreases ops.len(),
{
    if ops.len() > 0 {
        law_run_consistent(s, ops.drop_last());
        law_apply_consistent(s.run(ops.drop_last()), ops.last());
    }
}

/// Whatever calls are made on a new ledger, the treasury balance is never negative.
pub proof fn law_treasury_never_negative(ops: Seq<Operation>)
    ensures
        DaoState::empty().run(ops).treasury >= 0,
{
    DaoState::lemma_empty_consistent();
    law_run_consistent(DaoState::empty(), ops);
}

/// On a consistent ledger a proposal never counts more votes than there are voters
/// with a vote on it on record; on a settled ledger it counts exactly as many.
pub proof fn law_tally_within_voters(s: DaoState, id: nat)
    requires
        s.consistent(),
        s.proposals.dom().contains(id),
    ensures
        s.voters(id).finite(),
        s.proposals[id].total_votes() <= s.voters(id).len(),
        s.settled() ==> s.proposals[id].total_votes() == s.voters(id).len(),
{
    let approving = voters_of(s.votes, id, true);
    let rejecting = voters_of(s.votes, id, false);
    assert(s.voters(id) =~= approving + rejecting);
    lemma_set_disjoint_lens(approving, rejecting);
}

/// On a consistent and settled ledger the proposals on record are exactly those
/// numbered from 1 to the proposal counter.
pub proof fn law_registry_dense(s: DaoState, id: nat)
    requires
        s.consistent(),
        s.settled(),
    ensures
        s.proposals.dom().contains(id) <==> 1 <= id <= s.proposal_count,
{
}

/// A call keeps a settled ledger settled, unless it initializes a ledger on which
/// proposals have been submitted before.
pub proof fn law_apply_settled(s: DaoState, op: Operation)
    requires
        s.consistent(),
        s.settled(),
        op is Initialize ==> s.admin is Some || s.proposal_count == 0,
    ensures
        s.apply(op).settled(),
{
    match op {
        Operation::SubmitProposal { .. } => {
            if s.attempt(op) is Ok {
                assert(voters_of(s.votes, s.next_id(), true) =~= Set::empty());
                assert(voters_of(s.votes, s.next_id(), false) =~= Set::empty());
            }
        },
        Operation::Vote { voter, id, approve } => {
            if s.attempt(op) is Ok {
                lemma_voters_after_vote(s.votes, id, voter, approve);
            }
        },
        _ => {},
    }
}

/// On a settled ledger with an admin on record, whatever calls are made, the ledger
/// stays settled: the proposals on record are those counted, and each counts exactly
/// the votes on record for it and against it.
pub proof fn law_run_settled(s: DaoState, ops: Seq<Operation>)
    requires
        s.consistent(),
        s.settled(),
        s.admin is Some,
    ensures
        s.run(ops).settled(),
    decreases ops.len(),
{
    if ops.len() > 0 {
        law_run_settled(s, ops.drop_last());
        law_run_consistent(s, ops.drop_last());
        law_settings_stay(s, ops.drop_last());
        law_apply_settled(s.run(ops.drop_last()), ops.last());
    }
}

/// A ledger that is initialized before anything else happens on it is settled from
/// then on, whatever calls follow.
pub proof fn law_settled_from_start(admin: Seq<char>, threshold: nat, ops: Seq<Operation>)
    requires
        threshold <= 100,
    ensures
        DaoState::empty().initialize(admin, threshold) matches Ok(start) && start.run(
            ops,
        ).settled(),
{
    DaoState::lemma_empty_consistent();
    DaoState::empty().lemma_initialize_consistent(admin, threshold);
    law_run_settled(DaoState::empty().initialize(admin, threshold)->Ok_0, ops);
}

/// Initializing a ledger that has no admin, with a threshold that is a percentage,
/// succeeds and records that threshold and that admin.
pub proof fn law_initialize_records(s: DaoState, admin: Seq<char>, threshold: nat)
    requires
        s.admin is None,
        threshold <= 100,
    ensures
        s.initialize(admin, threshold) matches Ok(next) && next.voting_threshold == threshold
            && next.admin == Some(admin),
{
}

/// Once an admin is on record, no call changes the admin or the threshold.
pub proof fn law_settings_stay(s: DaoState, ops: Seq<Operation>)
    requires
        s.admin is Some,
    ensures
        s.run(ops).admin == s.admin,
        s.run(ops).voting_threshold == s.voting_threshold,
    decreases ops.len(),
{
    if ops.len() > 0 {
        law_settings_stay(s, ops.drop_last());
    }
}

/// After a successful initialization, whatever calls follow, the threshold read back
/// is the one given, and initializing again is refused with `AlreadyInitialized`.
pub proof fn law_initialize_once(
    s: DaoState,
    admin: Seq<char>,
    threshold: nat,
    ops: Seq<Operation>,
    again_admin: Seq<char>,
    again_threshold: nat,
)
    requires
        s.initialize(admin, threshold) is Ok,
    ensures
        ({
            let later = s.initialize(admin, threshold)->Ok_0.run(ops);
            &&& later.voting_threshold == threshold
            &&& later.initialize(again_admin, again_threshold) == Err::<DaoState, DaoError>(
                DaoError::AlreadyInitialized,
            )
        }),
{
    law_settings_stay(s.initialize(admin, threshold)->Ok_0, ops);
}

/// The identifiers that the successful submissions among the calls `ops` return, in
/// the order of the calls.
pub open spec fn identifiers_given(s: DaoState, ops: Seq<Operation>) -> Seq<nat>
    decreases ops.len(),
{
    if ops.len() == 0 {
        Seq::empty()
    } else {
        let before = s.run(ops.drop_last());
        let earlier = identifiers_given(s, ops.drop_last());
        if ops.last() is SubmitProposal && before.attempt(ops.last()) is Ok {
            earlier.push(before.next_id())
        } else {
            earlier
        }
    }
}

/// Whether none of the calls `ops` is an initialization.
pub open spec fn no_initialization(ops: Seq<Operation>) -> bool {
    forall|i: int| 0 <= i < ops.len() ==> !(#[trigger] ops[i] is Initialize)
}

/// In a run of calls on a ledger that has an admin, or of calls without an
/// initialization, the successful submissions return the identifiers that follow the
/// proposal counter, one after the other in the order of the calls, and the counter
/// grows by the number of successful submissions.
pub proof fn law_identifiers_sequential(s: DaoState, ops: Seq<Operation>)
    requires
        s.admin is Some || no_initialization(ops),
    ensures
        s.run(ops).proposal_count == s.proposal_count + identifiers_given(s, ops).len(),
        forall|k: int|
            0 <= k < identifiers_given(s, ops).len() ==> #[trigger] identifiers_given(s, ops)[k]
                == s.proposal_count + 1 + k,
    decreases ops.len(),
{
    if ops.len() > 0 {
        if s.admin is Some {
            law_settings_stay(s, ops.drop_last());
        } else {
            assert forall|i: int| 0 <= i < ops.drop_last().len() implies !(
            #[trigger] ops.drop_last()[i] is Initialize) by {
                assert(ops.drop_last()[i] == ops[i]);
            }
            assert(!(ops[ops.len() - 1] is Initialize));
        }
        law_identifiers_sequential(s, ops.drop_last());
    }
}

/// On a new ledger, a run of submissions returns exactly 1, 2, 3, … for those that
/// succeed, and the proposal counter ends as their number.
pub proof fn law_identifiers_from_one(ops: Seq<Operation>)
    requires
        forall|i: int| 0 <= i < ops.len() ==> #[trigger] ops[i] is SubmitProposal,
    ensures
        DaoState::empty().run(ops).proposal_count == identifiers_given(
            DaoState::empty(),
            ops,
        ).len(),
        forall|k: int|
            0 <= k < identifiers_given(DaoState::empty(), ops).len() ==> #[trigger] identifiers_given(
                DaoState::empty(),
                ops,
            )[k] == k + 1,
{
    assert forall|i: int| 0 <= i < ops.len() implies !(#[trigger] ops[i] is Initialize) by {
        assert(ops[i] is SubmitProposal);
    }
    law_identifiers_sequential(DaoState::empty(), ops);
}

/// A successful vote is the voter's first on that proposal, and puts the vote on
/// record.
pub proof fn law_vote_recorded(s: DaoState, voter: Seq<char>, id: nat, approve: bool)
    requires
        s.vote(voter, id, approve) is Ok,
    ensures
        !s.has_voted(id, voter),
        s.vote(voter, id, approve)->Ok_0.has_voted(id, voter),
        s.vote(voter, id, approve)->Ok_0.votes[(id, voter)] == approve,
{
}

/// A vote on record stays on record, as it was cast, whatever calls follow; and so
/// does a membership.
pub proof fn law_records_stay(s: DaoState, ops: Seq<Operation>, id: nat, voter: Seq<char>)
    ensures
        s.has_voted(id, voter) ==> s.run(ops).has_voted(id, voter) && s.run(ops).votes[(
            id,
            voter,
        )] == s.votes[(id, voter)],
        s.is_member(voter) ==> s.run(ops).is_member(voter),
    decreases ops.len(),
{
    if ops.len() > 0 {
        law_records_stay(s, ops.drop_last(), id, voter);
    }
}

/// Once a voter's vote on a proposal is on record, whatever calls follow, another
/// vote of that voter on that proposal is refused with `AlreadyVoted`.
pub proof fn law_second_vote_refused(
    s: DaoState,
    ops: Seq<Operation>,
    id: nat,
    voter: Seq<char>,
    approve: bool,
)
    requires
        s.consistent(),
        s.has_voted(id, voter),
    ensures
        s.run(ops).vote(voter, id, approve) == Err::<DaoState, DaoError>(DaoError::AlreadyVoted),
{
    law_records_stay(s, ops, id, voter);
}

/// Below the quorum floor a tally decides nothing, whatever the threshold; from the
/// floor on it always decides.
pub proof fn law_quorum_floor(votes_for: nat, votes_against: nat, threshold: nat)
    ensures
        votes_for + votes_against < QUORUM_FLOOR ==> tally_outcome(
            votes_for,
            votes_against,
            threshold,
        ) == Err::<ProposalStatus, DaoError>(DaoError::InsufficientVotes),
        votes_for + votes_against >= QUORUM_FLOOR ==> tally_outcome(
            votes_for,
            votes_against,
            threshold,
        ) is Ok,
{
}

/// Finalizing an active proposal is decided by its tally and the threshold alone:
/// what the tally decides becomes the proposal's stage, and what the tally refuses,
/// finalizing refuses. Nothing else on the ledger changes.
pub proof fn law_finalize_by_tally(s: DaoState, id: nat)
    requires
        s.proposal(id) matches Some(p) && p.status == ProposalStatus::Active,
    ensures
        ({
            let p = s.proposals[id];
            match tally_outcome(p.votes_for, p.votes_against, s.voting_threshold) {
                Ok(status) => s.finalize_proposal(id) == Ok::<DaoState, DaoError>(
                    DaoState { proposals: s.proposals.insert(id, p.with_status(status)), ..s },
                ),
                Err(e) => s.finalize_proposal(id) == Err::<DaoState, DaoError>(e),
            }
        }),
{
}

/// Finalizing an active proposal with fewer votes than the quorum floor is refused
/// with `InsufficientVotes`, whatever the threshold and the share of approvals.
pub proof fn law_finalize_needs_quorum(s: DaoState, id: nat)
    requires
        s.proposal(id) matches Some(p) && p.status == ProposalStatus::Active && p.total_votes()
            < QUORUM_FLOOR,
    ensures
        s.finalize_proposal(id) == Err::<DaoState, DaoError>(DaoError::InsufficientVotes),
{
}

/// Executing an approved proposal that asks for more than the treasury holds is
/// refused with `InsufficientFunds`, and the call leaves the ledger as it was.
pub proof fn law_execute_needs_funds(s: DaoState, id: nat)
    requires
        s.proposal(id) matches Some(p) && p.status == ProposalStatus::Approved
            && p.amount_requested > s.treasury,
    ensures
        s.execute_proposal(id) == Err::<DaoState, DaoError>(DaoError::InsufficientFunds),
        s.apply(Operation::ExecuteProposal { id }) == s,
{
}

/// Admitting the same member twice leaves the ledger as admitting it once.
pub proof fn law_add_member_idempotent(s: DaoState, caller: Seq<char>, member: Seq<char>)
    requires
        s.add_member(caller, member) is Ok,
    ensures
        s.add_member(caller, member)->Ok_0.add_member(caller, member) == s.add_member(
            caller,
            member,
        ),
{
    let once = s.add_member(caller, member)->Ok_0;
    assert(once.add_member(caller, member)->Ok_0 =~= once);
}

/// A call moves a counted proposal along an edge of its life, or leaves its stage as
/// it was: from active to approved or rejected, from approved to executed, and
/// nowhere from rejected or executed.
pub proof fn law_status_edges(s: DaoState, op: Operation, id: nat)
    requires
        s.consistent(),
        1 <= id <= s.proposal_count,
    ensures
        s.apply(op).proposals.dom().contains(id),
        s.apply(op).proposals[id].status == s.proposals[id].status || status_edge(
            s.proposals[id].status,
            s.apply(op).proposals[id].status,
        ),
{
}

/// On a ledger with an admin on record, a counted proposal that is rejected or
/// executed stays so, whatever calls follow.
pub proof fn law_terminal_stages(s: DaoState, ops: Seq<Operation>, id: nat)
    requires
        s.consistent(),
        s.admin is Some,
        1 <= id <= s.proposal_count,
        s.proposals[id].status == ProposalStatus::Rejected || s.proposals[id].status
            == ProposalStatus::Executed,
    ensures
        s.run(ops).proposals.dom().contains(id),
        s.run(ops).proposals[id].status == s.proposals[id].status,
        s.run(ops).proposal_count >= s.proposal_count,
    decreases ops.len(),
{
    if ops.len() > 0 {
        law_terminal_stages(s, ops.drop_last(), id);
        law_run_consistent(s, ops.drop_last());
        law_settings_stay(s, ops.drop_last());
        law_status_edges(s.run(ops.drop_last()), ops.last(), id);
    }
}

} // verus!
