use dao::{AccountId, Governor, GovernorError, Payment, Proposal, ONE_MINUTE};

fn token() -> AccountId {
    AccountId::from([0x01; 32])
}

fn bob() -> AccountId {
    AccountId::from([0x02; 32])
}

fn django() -> AccountId {
    AccountId::from([0x04; 32])
}

fn create_contract() -> Governor {
    Governor::new(token(), 50)
}

#[test]
fn next_proposal_id_works() {
    let mut governor = create_contract();
    assert_eq!(governor.next_proposal_id(), 0);
    assert_eq!(governor.propose(django(), 100, 1, 0), Ok(()));
    assert_eq!(governor.next_proposal_id(), 1);
}

#[test]
fn transfer_works() {
    let mut governor = create_contract();
    let recipient = bob();
    let amount = 100;
    let initial_contract_balance = 1000;

    let payment = governor.transfer(recipient, amount, initial_contract_balance);
    assert_eq!(payment, Ok(Payment { to: recipient, amount }));
    assert_eq!(payment.unwrap().settle(true), Ok(()));

    let final_contract_balance = initial_contract_balance - amount;

    // test not enough balance
    let result = governor.transfer(recipient, 1001, final_contract_balance);
    assert_eq!(result, Err(GovernorError::NotEnoughBalance));
}

#[test]
fn propose_works() {
    let mut governor = create_contract();
    let now = 0;
    assert_eq!(
        governor.propose(django(), 0, 1, now),
        Err(GovernorError::AmountShouldNotBeZero)
    );
    assert_eq!(
        governor.propose(django(), 100, 0, now),
        Err(GovernorError::DurationError)
    );
    let result = governor.propose(django(), 100, 1, now);
    assert_eq!(result, Ok(()));
    let proposal = governor.get_proposal(0).unwrap();
    assert_eq!(
        proposal,
        Proposal {
            to: django(),
            amount: 100,
            vote_start: 0,
            vote_end: now + 1 * ONE_MINUTE,
            executed: false,
        }
    );
    assert_eq!(governor.next_proposal_id(), 1);
}

#[test]
fn proposal_not_found() {
    let mut governor = create_contract();
    let result = governor.execute(0, 1000);
    assert_eq!(result, Err(GovernorError::ProposalNotFound));
}

#[test]
fn quorum_not_reached() {
    let mut governor = create_contract();
    let result = governor.propose(bob(), 100, 1, 0);
    assert_eq!(result, Ok(()));
    let execute = governor.execute(0, 1000);
    assert_eq!(execute, Err(GovernorError::QuorumNotReached));
}

#[test]
fn new_engine_is_empty() {
    let governor = create_contract();
    assert_eq!(governor.next_proposal_id(), 0);
    assert_eq!(governor.get_proposal(0), None);
    assert_eq!(governor.get_proposal_vote(0), None);
    assert!(!governor.has_voted(0, bob()));
}

#[test]
fn first_proposal_scenario() {
    let mut governor = create_contract();
    assert_eq!(governor.propose(django(), 100, 1, 0), Ok(()));
    assert_eq!(governor.next_proposal_id(), 1);
    assert_eq!(
        governor.get_proposal(0),
        Some(Proposal {
            to: django(),
            amount: 100,
            vote_start: 0,
            vote_end: 60,
            executed: false,
        })
    );
    assert_eq!(governor.get_proposal(1), None);
}

#[test]
fn rejected_proposals_leave_the_counter_alone() {
    let mut governor = create_contract();
    assert_eq!(
        governor.propose(django(), 0, 1, 0),
        Err(GovernorError::AmountShouldNotBeZero)
    );
    assert_eq!(governor.next_proposal_id(), 0);
    assert_eq!(
        governor.propose(django(), 100, 0, 0),
        Err(GovernorError::DurationError)
    );
    assert_eq!(governor.next_proposal_id(), 0);
    assert_eq!(governor.get_proposal(0), None);
}

#[test]
fn zero_amount_is_reported_before_zero_duration() {
    let mut governor = create_contract();
    assert_eq!(
        governor.propose(django(), 0, 0, 0),
        Err(GovernorError::AmountShouldNotBeZero)
    );
}

#[test]
fn window_is_start_plus_minutes() {
    let mut governor = create_contract();
    assert_eq!(governor.propose(django(), 7, 3, 1_000), Ok(()));
    let proposal = governor.get_proposal(0).unwrap();
    assert_eq!(proposal.vote_start, 1_000);
    assert_eq!(proposal.vote_end, 1_180);

    assert_eq!(governor.propose(bob(), 9, 1_440, 86_400), Ok(()));
    let proposal = governor.get_proposal(1).unwrap();
    assert_eq!(proposal.vote_start, 86_400);
    assert_eq!(proposal.vote_end, 86_400 + 1_440 * 60);
}

#[test]
fn window_may_end_at_the_last_instant() {
    let mut governor = create_contract();
    let now = u64::MAX - 60;
    assert_eq!(governor.propose(django(), 1, 1, now), Ok(()));
    assert_eq!(governor.get_proposal(0).unwrap().vote_end, u64::MAX);
}

#[test]
fn identifiers_count_up_from_zero() {
    let mut governor = create_contract();
    let mut expected = 0;
    while expected < 5 {
        assert_eq!(governor.next_proposal_id(), expected);
        assert_eq!(governor.propose(django(), expected + 1, 1, 0), Ok(()));
        expected += 1;
    }
    assert_eq!(governor.next_proposal_id(), 5);
    let mut id = 0;
    while id < 5 {
        assert_eq!(governor.get_proposal(id).unwrap().amount, id + 1);
        id += 1;
    }
    assert_eq!(governor.get_proposal(5), None);
    assert_eq!(governor.get_proposal(u128::MAX), None);
}

#[test]
fn new_proposal_has_an_empty_tally() {
    let mut governor = create_contract();
    assert_eq!(governor.propose(django(), 100, 1, 0), Ok(()));
    let tally = governor.get_proposal_vote(0).unwrap();
    assert_eq!(tally.for_votes, 0);
    assert_eq!(tally.against_votes, 0);
    assert_eq!(tally.total_votes(), 0);
}

#[test]
fn transfer_of_the_whole_balance_is_ordered() {
    let mut governor = create_contract();
    assert_eq!(
        governor.transfer(bob(), 1000, 1000),
        Ok(Payment {
            to: bob(),
            amount: 1000
        })
    );
    assert_eq!(
        governor.transfer(bob(), 0, 0),
        Ok(Payment {
            to: bob(),
            amount: 0
        })
    );
}

#[test]
fn transfer_beyond_the_balance_changes_nothing() {
    let mut governor = create_contract();
    assert_eq!(governor.propose(django(), 100, 1, 0), Ok(()));
    assert_eq!(
        governor.transfer(bob(), 1, 0),
        Err(GovernorError::NotEnoughBalance)
    );
    assert_eq!(
        governor.transfer(bob(), u128::MAX, u128::MAX - 1),
        Err(GovernorError::NotEnoughBalance)
    );
    assert_eq!(governor.next_proposal_id(), 1);
    assert_eq!(
        governor.get_proposal(0),
        Some(Proposal {
            to: django(),
            amount: 100,
            vote_start: 0,
            vote_end: 60,
            executed: false,
        })
    );
}

#[test]
fn failed_payment_is_a_failed_transaction() {
    let payment = Payment {
        to: bob(),
        amount: 5,
    };
    assert_eq!(payment.settle(false), Err(GovernorError::TransactionFailed));
    assert_eq!(payment.settle(true), Ok(()));
}
