use dao::{
    get_vote_weight, vote_weight, AccountId, Governor, GovernorError, OracleQuery, OracleReply,
    OracleRequest, ProposalVote, VoteType, ORACLE_GAS_LIMIT,
};

fn token() -> AccountId {
    AccountId::from([0x01; 32])
}

fn alice() -> AccountId {
    AccountId::from([0x01; 32])
}

fn bob() -> AccountId {
    AccountId::from([0x02; 32])
}

fn charlie() -> AccountId {
    AccountId::from([0x03; 32])
}

fn django() -> AccountId {
    AccountId::from([0x04; 32])
}

fn with_one_proposal() -> Governor {
    let mut governor = Governor::new(token(), 50);
    assert_eq!(governor.propose(django(), 100, 1, 0), Ok(()));
    governor
}

fn amount(value: u128) -> OracleReply {
    OracleReply::Amount(value)
}

#[test]
fn vote_on_unknown_proposal() {
    let mut governor = with_one_proposal();
    assert_eq!(
        governor.vote(1, VoteType::For, alice(), 0, amount(10), amount(100)),
        Err(GovernorError::ProposalNotFound)
    );
    assert!(!governor.has_voted(1, alice()));
}

#[test]
fn vote_adds_the_share_in_percent() {
    let mut governor = with_one_proposal();
    assert_eq!(
        governor.vote(0, VoteType::For, alice(), 10, amount(25), amount(100)),
        Ok(())
    );
    assert_eq!(
        governor.get_proposal_vote(0),
        Some(ProposalVote {
            for_votes: 25,
            against_votes: 0
        })
    );
    assert_eq!(
        governor.vote(0, VoteType::Against, bob(), 20, amount(1), amount(3)),
        Ok(())
    );
    assert_eq!(
        governor.get_proposal_vote(0),
        Some(ProposalVote {
            for_votes: 25,
            against_votes: 33
        })
    );
    assert_eq!(
        governor.vote(0, VoteType::For, charlie(), 30, amount(2), amount(3)),
        Ok(())
    );
    assert_eq!(
        governor.get_proposal_vote(0),
        Some(ProposalVote {
            for_votes: 91,
            against_votes: 33
        })
    );
}

#[test]
fn second_vote_is_rejected_whatever_its_direction() {
    let mut governor = with_one_proposal();
    assert_eq!(
        governor.vote(0, VoteType::For, alice(), 10, amount(25), amount(100)),
        Ok(())
    );
    assert_eq!(
        governor.vote(0, VoteType::For, alice(), 11, amount(25), amount(100)),
        Err(GovernorError::AlreadyVoted)
    );
    assert_eq!(
        governor.vote(0, VoteType::Against, alice(), 12, amount(25), amount(100)),
        Err(GovernorError::AlreadyVoted)
    );
    assert_eq!(
        governor.vote(0, VoteType::Against, alice(), 12, OracleReply::CallError, amount(0)),
        Err(GovernorError::AlreadyVoted)
    );
    assert_eq!(
        governor.get_proposal_vote(0),
        Some(ProposalVote {
            for_votes: 25,
            against_votes: 0
        })
    );
}

#[test]
fn voter_is_recorded_even_if_weighing_fails() {
    let mut governor = with_one_proposal();
    assert_eq!(
        governor.vote(0, VoteType::For, alice(), 10, OracleReply::CallError, amount(100)),
        Err(GovernorError::TransactionFailed)
    );
    assert!(governor.has_voted(0, alice()));
    assert_eq!(
        governor.get_proposal_vote(0),
        Some(ProposalVote {
            for_votes: 0,
            against_votes: 0
        })
    );
    assert_eq!(
        governor.vote(0, VoteType::For, alice(), 10, amount(25), amount(100)),
        Err(GovernorError::AlreadyVoted)
    );
    assert_eq!(
        governor.vote(0, VoteType::Against, alice(), 10, amount(25), amount(100)),
        Err(GovernorError::AlreadyVoted)
    );
    assert_eq!(
        governor.get_proposal_vote(0),
        Some(ProposalVote {
            for_votes: 0,
            against_votes: 0
        })
    );
}

#[test]
fn every_oracle_failure_is_a_failed_transaction() {
    let mut governor = with_one_proposal();
    assert_eq!(
        governor.vote(0, VoteType::For, alice(), 0, OracleReply::CallError, amount(100)),
        Err(GovernorError::TransactionFailed)
    );
    assert_eq!(
        governor.vote(0, VoteType::For, bob(), 0, OracleReply::ApplicationFailure, amount(100)),
        Err(GovernorError::TransactionFailed)
    );
    assert_eq!(
        governor.vote(0, VoteType::For, charlie(), 0, amount(10), OracleReply::CallError),
        Err(GovernorError::TransactionFailed)
    );
    assert_eq!(
        governor.vote(0, VoteType::For, django(), 0, amount(10), OracleReply::ApplicationFailure),
        Err(GovernorError::TransactionFailed)
    );
    assert_eq!(
        governor.get_proposal_vote(0),
        Some(ProposalVote {
            for_votes: 0,
            against_votes: 0
        })
    );
}

#[test]
fn zero_total_supply_is_a_failed_transaction() {
    let mut governor = with_one_proposal();
    assert_eq!(
        governor.vote(0, VoteType::For, alice(), 0, amount(10), amount(0)),
        Err(GovernorError::TransactionFailed)
    );
    assert!(governor.has_voted(0, alice()));
    assert_eq!(
        get_vote_weight(amount(0), amount(0)),
        Err(GovernorError::TransactionFailed)
    );
}

#[test]
fn vote_is_taken_up_to_the_end_of_the_window() {
    let mut governor = with_one_proposal();
    assert_eq!(
        governor.vote(0, VoteType::For, alice(), 60, amount(10), amount(100)),
        Ok(())
    );
    assert_eq!(
        governor.vote(0, VoteType::For, bob(), 61, amount(10), amount(100)),
        Err(GovernorError::VotePeriodExpired)
    );
    assert!(!governor.has_voted(0, bob()));
    assert_eq!(
        governor.vote(0, VoteType::For, bob(), u64::MAX, amount(10), amount(100)),
        Err(GovernorError::VotePeriodExpired)
    );
}

#[test]
fn expiry_is_reported_before_a_repeated_vote() {
    let mut governor = with_one_proposal();
    assert_eq!(
        governor.vote(0, VoteType::For, alice(), 60, amount(10), amount(100)),
        Ok(())
    );
    assert_eq!(
        governor.vote(0, VoteType::For, alice(), 61, amount(10), amount(100)),
        Err(GovernorError::VotePeriodExpired)
    );
}

#[test]
fn executed_proposal_takes_no_votes() {
    let mut governor = with_one_proposal();
    assert_eq!(
        governor.vote(0, VoteType::For, alice(), 10, amount(60), amount(100)),
        Ok(())
    );
    assert!(governor.execute(0, 1000).is_ok());
    assert_eq!(
        governor.vote(0, VoteType::For, bob(), 10, amount(10), amount(100)),
        Err(GovernorError::ProposalAlreadyExecuted)
    );
    assert_eq!(
        governor.vote(0, VoteType::For, alice(), 10, amount(10), amount(100)),
        Err(GovernorError::ProposalAlreadyExecuted)
    );
    assert_eq!(
        governor.vote(0, VoteType::For, bob(), 1_000, amount(10), amount(100)),
        Err(GovernorError::ProposalAlreadyExecuted)
    );
    assert!(!governor.has_voted(0, bob()));
}

#[test]
fn votes_on_different_proposals_do_not_mix() {
    let mut governor = with_one_proposal();
    assert_eq!(governor.propose(bob(), 5, 2, 100), Ok(()));
    assert_eq!(
        governor.vote(0, VoteType::For, alice(), 10, amount(40), amount(100)),
        Ok(())
    );
    assert!(governor.has_voted(0, alice()));
    assert!(!governor.has_voted(1, alice()));
    assert_eq!(
        governor.vote(1, VoteType::Against, alice(), 110, amount(30), amount(100)),
        Ok(())
    );
    assert_eq!(
        governor.get_proposal_vote(0),
        Some(ProposalVote {
            for_votes: 40,
            against_votes: 0
        })
    );
    assert_eq!(
        governor.get_proposal_vote(1),
        Some(ProposalVote {
            for_votes: 0,
            against_votes: 30
        })
    );
}

#[test]
fn voting_leaves_the_proposal_as_it_was() {
    let mut governor = with_one_proposal();
    let before = governor.get_proposal(0);
    assert_eq!(
        governor.vote(0, VoteType::For, alice(), 10, amount(40), amount(100)),
        Ok(())
    );
    assert_eq!(governor.get_proposal(0), before);
    assert_eq!(governor.next_proposal_id(), 1);
}

#[test]
fn weight_is_rounded_down() {
    assert_eq!(vote_weight(1, 3), 33);
    assert_eq!(vote_weight(2, 3), 66);
    assert_eq!(vote_weight(3, 3), 100);
    assert_eq!(vote_weight(0, 3), 0);
    assert_eq!(vote_weight(1, 101), 0);
    assert_eq!(vote_weight(199, 200), 99);
    assert_eq!(vote_weight(250, 100), 250);
    assert_eq!(vote_weight(u128::MAX / 100, 1), (u128::MAX / 100) * 100);
}

#[test]
fn weight_of_two_replies() {
    assert_eq!(get_vote_weight(amount(50), amount(200)), Ok(25));
    assert_eq!(get_vote_weight(amount(7), amount(7)), Ok(100));
    assert_eq!(
        get_vote_weight(OracleReply::CallError, OracleReply::CallError),
        Err(GovernorError::TransactionFailed)
    );
    assert_eq!(
        get_vote_weight(OracleReply::ApplicationFailure, amount(7)),
        Err(GovernorError::TransactionFailed)
    );
    assert_eq!(
        get_vote_weight(amount(7), OracleReply::ApplicationFailure),
        Err(GovernorError::TransactionFailed)
    );
    assert_eq!(
        get_vote_weight(OracleReply::CallError, amount(0)),
        Err(GovernorError::TransactionFailed)
    );
}

#[test]
fn reply_gives_its_amount() {
    assert_eq!(amount(0).into_amount(), Ok(0));
    assert_eq!(amount(u128::MAX).into_amount(), Ok(u128::MAX));
    assert_eq!(
        OracleReply::CallError.into_amount(),
        Err(GovernorError::TransactionFailed)
    );
    assert_eq!(
        OracleReply::ApplicationFailure.into_amount(),
        Err(GovernorError::TransactionFailed)
    );
}

#[test]
fn questions_go_to_the_governance_token() {
    let governor = Governor::new(token(), 50);
    assert_eq!(ORACLE_GAS_LIMIT, 5_000_000_000);
    assert_eq!(
        governor.balance_request(bob()),
        OracleRequest {
            token: token(),
            gas_limit: 5_000_000_000,
            query: OracleQuery::BalanceOf(bob()),
        }
    );
    assert_eq!(
        governor.total_supply_request(),
        OracleRequest {
            token: token(),
            gas_limit: 5_000_000_000,
            query: OracleQuery::TotalSupply,
        }
    );
}

#[test]
fn admitted_ballot_is_counted_once_weighed() {
    let mut governor = with_one_proposal();
    let ballot = governor.admit_vote(0, VoteType::Against, bob(), 5).unwrap();
    assert_eq!(ballot.proposal_id(), 0);
    assert_eq!(ballot.voter(), bob());
    assert_eq!(ballot.vote(), VoteType::Against);
    assert!(governor.has_voted(0, bob()));
    assert_eq!(
        governor.get_proposal_vote(0),
        Some(ProposalVote {
            for_votes: 0,
            against_votes: 0
        })
    );
    let weight = get_vote_weight(amount(30), amount(40)).unwrap();
    assert_eq!(weight, 75);
    governor.tally_vote(ballot, weight);
    assert_eq!(
        governor.get_proposal_vote(0),
        Some(ProposalVote {
            for_votes: 0,
            against_votes: 75
        })
    );
    assert_eq!(
        governor.admit_vote(0, VoteType::For, bob(), 6).err(),
        Some(GovernorError::AlreadyVoted)
    );
}

#[test]
fn admission_checks_come_in_order() {
    let mut governor = with_one_proposal();
    assert_eq!(
        governor.admit_vote(7, VoteType::For, alice(), 1_000).err(),
        Some(GovernorError::ProposalNotFound)
    );
    assert_eq!(
        governor.admit_vote(0, VoteType::For, alice(), 1_000).err(),
        Some(GovernorError::VotePeriodExpired)
    );
    assert!(governor.admit_vote(0, VoteType::For, alice(), 60).is_ok());
    assert_eq!(
        governor.admit_vote(0, VoteType::For, alice(), 60).err(),
        Some(GovernorError::AlreadyVoted)
    );
}

#[test]
fn account_ids_compare_by_their_bytes() {
    let mut bytes = [0x07; 32];
    let first = AccountId::from(bytes);
    assert_eq!(first, AccountId::from([0x07; 32]));
    assert_eq!(first.to_bytes(), [0x07; 32]);
    bytes[31] = 0x08;
    assert_ne!(first, AccountId::from(bytes));
    bytes[31] = 0x07;
    bytes[0] = 0x00;
    assert_ne!(first, AccountId::from(bytes));
}
