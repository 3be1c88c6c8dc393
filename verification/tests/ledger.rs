use emergency_fund_dao::{Address, AuthenticatedCaller, DaoError, EmergencyFundDAO, ProposalStatus};

fn address(name: &str) -> Address {
    Address::new(name.to_string())
}

fn caller(address: &Address) -> AuthenticatedCaller {
    AuthenticatedCaller::new(address.clone())
}

fn fail(e: DaoError) -> ! {
    panic!("{}", e.message())
}

fn submit(
    dao: &mut EmergencyFundDAO,
    hospital: &Address,
    patient_name: &str,
    patient_details: &str,
    amount_requested: i128,
) -> u64 {
    dao.submit_proposal(
        &caller(hospital),
        patient_name.to_string(),
        patient_details.to_string(),
        amount_requested,
        0,
    )
    .unwrap_or_else(|e| fail(e))
}

fn vote(dao: &mut EmergencyFundDAO, voter: &Address, proposal_id: u64, approve: bool) {
    dao.vote(&caller(voter), proposal_id, approve).unwrap_or_else(|e| fail(e))
}

fn add_member(dao: &mut EmergencyFundDAO, admin: &Address, member: &Address) {
    dao.add_member(&caller(admin), member.clone()).unwrap_or_else(|e| fail(e))
}

#[test]
fn test_initialize() {
    let mut dao = EmergencyFundDAO::new();

    let admin = address("admin");

    dao.initialize(admin, 66).unwrap_or_else(|e| fail(e));

    assert_eq!(dao.get_voting_threshold(), 66);
    assert_eq!(dao.get_proposal_count(), 0);
    assert_eq!(dao.get_treasury_balance(), 0);
}

#[test]
#[should_panic(expected = "DAO already initialized")]
fn test_initialize_twice() {
    let mut dao = EmergencyFundDAO::new();

    let admin = address("admin");

    dao.initialize(admin.clone(), 66).unwrap_or_else(|e| fail(e));
    dao.initialize(admin, 66).unwrap_or_else(|e| fail(e)); // Should panic
}

#[test]
fn test_add_member() {
    let mut dao = EmergencyFundDAO::new();

    let admin = address("admin");
    let member = address("member");

    dao.initialize(admin.clone(), 66).unwrap_or_else(|e| fail(e));
    add_member(&mut dao, &admin, &member);

    assert!(dao.is_member(&member));
}

#[test]
fn test_add_funds() {
    let mut dao = EmergencyFundDAO::new();

    let admin = address("admin");

    dao.initialize(admin, 66).unwrap_or_else(|e| fail(e));
    dao.add_funds(1000).unwrap_or_else(|e| fail(e));

    assert_eq!(dao.get_treasury_balance(), 1000);

    dao.add_funds(500).unwrap_or_else(|e| fail(e));
    assert_eq!(dao.get_treasury_balance(), 1500);
}

#[test]
fn test_submit_proposal() {
    let mut dao = EmergencyFundDAO::new();

    let admin = address("admin");
    let hospital = address("hospital");

    dao.initialize(admin, 66).unwrap_or_else(|e| fail(e));

    let proposal_id =
        submit(&mut dao, &hospital, "John Doe", "Emergency heart surgery required", 5000);

    assert_eq!(proposal_id, 1);
    assert_eq!(dao.get_proposal_count(), 1);

    let proposal = dao.get_proposal(proposal_id).unwrap_or_else(|e| fail(e));
    assert_eq!(proposal.id, 1);
    assert_eq!(proposal.amount_requested, 5000);
    assert_eq!(proposal.votes_for, 0);
    assert_eq!(proposal.votes_against, 0);
}

#[test]
fn test_voting_and_approval() {
    let mut dao = EmergencyFundDAO::new();

    let admin = address("admin");
    let hospital = address("hospital");
    let member1 = address("member1");
    let member2 = address("member2");
    let member3 = address("member3");

    // Initialize DAO with 66% threshold
    dao.initialize(admin.clone(), 66).unwrap_or_else(|e| fail(e));

    // Add members
    add_member(&mut dao, &admin, &member1);
    add_member(&mut dao, &admin, &member2);
    add_member(&mut dao, &admin, &member3);

    // Submit proposal
    let proposal_id = submit(&mut dao, &hospital, "Jane Smith", "Cancer treatment needed", 10000);

    // Members vote - 2 for, 1 against (66% approval)
    vote(&mut dao, &member1, proposal_id, true);
    vote(&mut dao, &member2, proposal_id, true);
    vote(&mut dao, &member3, proposal_id, false);

    // Finalize the voting
    dao.finalize_proposal(proposal_id).unwrap_or_else(|e| fail(e));

    let proposal = dao.get_proposal(proposal_id).unwrap_or_else(|e| fail(e));
    assert_eq!(proposal.votes_for, 2);
    assert_eq!(proposal.votes_against, 1);

    // Should be approved since 66% voted yes
    match proposal.status {
        ProposalStatus::Approved => {}
        _ => panic!("Proposal should be approved"),
    }
}

#[test]
fn test_voting_and_rejection() {
    let mut dao = EmergencyFundDAO::new();

    let admin = address("admin");
    let hospital = address("hospital");
    let member1 = address("member1");
    let member2 = address("member2");
    let member3 = address("member3");

    dao.initialize(admin.clone(), 66).unwrap_or_else(|e| fail(e));
    add_member(&mut dao, &admin, &member1);
    add_member(&mut dao, &admin, &member2);
    add_member(&mut dao, &admin, &member3);

    let proposal_id = submit(&mut dao, &hospital, "Test Patient", "Test case", 5000);

    // 1 for, 2 against (33% approval, less than 66% threshold)
    vote(&mut dao, &member1, proposal_id, true);
    vote(&mut dao, &member2, proposal_id, false);
    vote(&mut dao, &member3, proposal_id, false);

    // Finalize the voting
    dao.finalize_proposal(proposal_id).unwrap_or_else(|e| fail(e));

    let proposal = dao.get_proposal(proposal_id).unwrap_or_else(|e| fail(e));

    match proposal.status {
        ProposalStatus::Rejected => {}
        _ => panic!("Proposal should be rejected"),
    }
}

#[test]
#[should_panic(expected = "Already voted on this proposal")]
fn test_double_voting() {
    let mut dao = EmergencyFundDAO::new();

    let admin = address("admin");
    let hospital = address("hospital");
    let member = address("member");

    dao.initialize(admin.clone(), 66).unwrap_or_else(|e| fail(e));
    add_member(&mut dao, &admin, &member);

    let proposal_id = submit(&mut dao, &hospital, "Test", "Test", 1000);

    vote(&mut dao, &member, proposal_id, true);
    vote(&mut dao, &member, proposal_id, true); // Should panic
}

#[test]
fn test_execute_proposal() {
    let mut dao = EmergencyFundDAO::new();

    let admin = address("admin");
    let hospital = address("hospital");
    let member1 = address("member1");
    let member2 = address("member2");
    let member3 = address("member3");

    dao.initialize(admin.clone(), 66).unwrap_or_else(|e| fail(e));
    dao.add_funds(20000).unwrap_or_else(|e| fail(e));

    add_member(&mut dao, &admin, &member1);
    add_member(&mut dao, &admin, &member2);
    add_member(&mut dao, &admin, &member3);

    let proposal_id = submit(&mut dao, &hospital, "Emergency Patient", "Urgent surgery", 10000);

    // Vote to approve
    vote(&mut dao, &member1, proposal_id, true);
    vote(&mut dao, &member2, proposal_id, true);
    vote(&mut dao, &member3, proposal_id, false);

    // Finalize the voting
    dao.finalize_proposal(proposal_id).unwrap_or_else(|e| fail(e));

    // Execute proposal
    dao.execute_proposal(proposal_id).unwrap_or_else(|e| fail(e));

    // Check treasury was deducted
    assert_eq!(dao.get_treasury_balance(), 10000);

    // Check proposal is marked as executed
    let proposal = dao.get_proposal(proposal_id).unwrap_or_else(|e| fail(e));
    match proposal.status {
        ProposalStatus::Executed => {}
        _ => panic!("Proposal should be executed"),
    }
}

#[test]
#[should_panic(expected = "Insufficient funds in treasury")]
fn test_execute_without_funds() {
    let mut dao = EmergencyFundDAO::new();

    let admin = address("admin");
    let hospital = address("hospital");
    let member1 = address("member1");
    let member2 = address("member2");
    let member3 = address("member3");

    dao.initialize(admin.clone(), 66).unwrap_or_else(|e| fail(e));
    dao.add_funds(1000).unwrap_or_else(|e| fail(e)); // Not enough funds

    add_member(&mut dao, &admin, &member1);
    add_member(&mut dao, &admin, &member2);
    add_member(&mut dao, &admin, &member3);

    let proposal_id = submit(&mut dao, &hospital, "Patient", "Treatment", 5000);

    vote(&mut dao, &member1, proposal_id, true);
    vote(&mut dao, &member2, proposal_id, true);
    vote(&mut dao, &member3, proposal_id, false);

    // Finalize the voting
    dao.finalize_proposal(proposal_id).unwrap_or_else(|e| fail(e));

    dao.execute_proposal(proposal_id).unwrap_or_else(|e| fail(e)); // Should panic
}

#[test]
fn test_complete_workflow() {
    let mut dao = EmergencyFundDAO::new();

    // Setup
    let admin = address("admin");
    let hospital1 = address("hospital1");
    let hospital2 = address("hospital2");
    let member1 = address("member1");
    let member2 = address("member2");
    let member3 = address("member3");
    let member4 = address("member4");

    // Initialize DAO
    dao.initialize(admin.clone(), 75).unwrap_or_else(|e| fail(e)); // 75% threshold
    dao.add_funds(50000).unwrap_or_else(|e| fail(e));

    // Add members
    add_member(&mut dao, &admin, &member1);
    add_member(&mut dao, &admin, &member2);
    add_member(&mut dao, &admin, &member3);
    add_member(&mut dao, &admin, &member4);

    // Hospital 1 submits proposal
    let proposal1 = submit(&mut dao, &hospital1, "Alice Johnson", "Heart transplant", 15000);

    // Hospital 2 submits proposal
    let proposal2 = submit(&mut dao, &hospital2, "Bob Williams", "Cancer treatment", 12000);

    assert_eq!(dao.get_proposal_count(), 2);

    // Vote on proposal 1 - 3 yes, 1 no (75% approval)
    vote(&mut dao, &member1, proposal1, true);
    vote(&mut dao, &member2, proposal1, true);
    vote(&mut dao, &member3, proposal1, true);
    vote(&mut dao, &member4, proposal1, false);

    // Finalize proposal 1
    dao.finalize_proposal(proposal1).unwrap_or_else(|e| fail(e));

    // Vote on proposal 2 - 2 yes, 2 no (50% approval, below threshold)
    vote(&mut dao, &member1, proposal2, true);
    vote(&mut dao, &member2, proposal2, true);
    vote(&mut dao, &member3, proposal2, false);
    vote(&mut dao, &member4, proposal2, false);

    // Finalize proposal 2
    dao.finalize_proposal(proposal2).unwrap_or_else(|e| fail(e));

    // Execute approved proposal
    dao.execute_proposal(proposal1).unwrap_or_else(|e| fail(e));

    assert_eq!(dao.get_treasury_balance(), 35000); // 50000 - 15000

    let first = dao.get_proposal(proposal1).unwrap_or_else(|e| fail(e));
    let second = dao.get_proposal(proposal2).unwrap_or_else(|e| fail(e));

    match first.status {
        ProposalStatus::Executed => {}
        _ => panic!("Proposal 1 should be executed"),
    }

    match second.status {
        ProposalStatus::Rejected => {}
        _ => panic!("Proposal 2 should be rejected"),
    }
}

#[test]
fn test_mock_data_output() {
    let mut dao = EmergencyFundDAO::new();

    // Setup mock addresses
    let admin = address("admin");
    let hospital = address("hospital");
    let member1 = address("member1");
    let member2 = address("member2");
    let member3 = address("member3");

    // Initialize DAO with 66% threshold
    dao.initialize(admin.clone(), 66).unwrap_or_else(|e| fail(e));
    assert_eq!(dao.get_voting_threshold(), 66);
    assert_eq!(dao.get_treasury_balance(), 0);

    // Add funds to treasury
    dao.add_funds(100000).unwrap_or_else(|e| fail(e));
    assert_eq!(dao.get_treasury_balance(), 100000);

    // Add members to DAO
    add_member(&mut dao, &admin, &member1);
    add_member(&mut dao, &admin, &member2);
    add_member(&mut dao, &admin, &member3);
    assert!(dao.is_member(&member1));
    assert!(dao.is_member(&member2));
    assert!(dao.is_member(&member3));

    // Hospital submits emergency proposal
    let proposal_id = submit(
        &mut dao,
        &hospital,
        "Sarah Martinez",
        "Emergency: Acute heart failure requiring immediate bypass surgery. Patient is 45-year-old with no insurance.",
        25000,
    );

    assert_eq!(proposal_id, 1);
    assert_eq!(dao.get_proposal_count(), 1);

    let proposal = dao.get_proposal(proposal_id).unwrap_or_else(|e| fail(e));
    assert_eq!(proposal.id, 1);
    assert_eq!(proposal.patient_name, "Sarah Martinez".to_string());
    assert_eq!(proposal.amount_requested, 25000);
    assert_eq!(proposal.votes_for, 0);
    assert_eq!(proposal.votes_against, 0);

    // Members vote on proposal
    vote(&mut dao, &member1, proposal_id, true); // Approve
    assert!(dao.has_voted(proposal_id, &member1));

    let proposal_v1 = dao.get_proposal(proposal_id).unwrap_or_else(|e| fail(e));
    assert_eq!(proposal_v1.votes_for, 1);
    assert_eq!(proposal_v1.votes_against, 0);

    vote(&mut dao, &member2, proposal_id, true); // Approve
    let proposal_v2 = dao.get_proposal(proposal_id).unwrap_or_else(|e| fail(e));
    assert_eq!(proposal_v2.votes_for, 2);
    assert_eq!(proposal_v2.votes_against, 0);

    vote(&mut dao, &member3, proposal_id, false); // Reject
    let proposal_v3 = dao.get_proposal(proposal_id).unwrap_or_else(|e| fail(e));
    assert_eq!(proposal_v3.votes_for, 2);
    assert_eq!(proposal_v3.votes_against, 1);

    // Calculate approval rate: 2/3 = 66.67% (meets 66% threshold)
    let total_votes = proposal_v3.votes_for + proposal_v3.votes_against;
    let approval_rate = (proposal_v3.votes_for * 100) / total_votes;
    assert_eq!(approval_rate, 66); // 66% approval

    // Finalize proposal
    dao.finalize_proposal(proposal_id).unwrap_or_else(|e| fail(e));
    let finalized = dao.get_proposal(proposal_id).unwrap_or_else(|e| fail(e));
    match finalized.status {
        ProposalStatus::Approved => {}
        _ => panic!("Should be approved"),
    }

    // Execute proposal and release funds
    let treasury_before = dao.get_treasury_balance();
    assert_eq!(treasury_before, 100000);

    dao.execute_proposal(proposal_id).unwrap_or_else(|e| fail(e));

    let treasury_after = dao.get_treasury_balance();
    assert_eq!(treasury_after, 75000); // 100000 - 25000

    let executed = dao.get_proposal(proposal_id).unwrap_or_else(|e| fail(e));
    match executed.status {
        ProposalStatus::Executed => {}
        _ => panic!("Should be executed"),
    }

    // Verify final state
    assert_eq!(dao.get_proposal_count(), 1);
    assert_eq!(dao.get_treasury_balance(), 75000);
    assert_eq!(dao.get_voting_threshold(), 66);
}
