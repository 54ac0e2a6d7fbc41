//! The executable engine.
//!
//! [`Governor`] keeps its three stores in vectors indexed by proposal
//! identifier: identifiers are handed out from zero upwards and never
//! reused. What it holds is read through its view, a
//! [`GovernorState`]; each operation is proved to report the result and to
//! leave the state that the functions of that state machine describe.
//!
//! The engine calls nothing outside itself. Where an operation depends on the
//! token contract or on the treasury, the host asks or pays and the engine
//! decides: `vote` takes the token contract's replies, `execute` and
//! `transfer` take the treasury's balance and hand back the payment to
//! attempt. A host for which it matters that the token contract is asked only
//! once the vote is on record casts a vote in two steps, `admit_vote` and
//! `tally_vote`, and asks in between.

use vstd::prelude::*;
use vstd::seq_lib::lemma_seq_contains_after_push;
use crate::account::AccountId;
use crate::laws::{
    lemma_admission_step,
    lemma_execute_step,
    lemma_propose_step,
    lemma_tally_step,
    lemma_vote_step,
};
use crate::oracle::{
    get_vote_weight,
    weighable,
    OracleQuery,
    OracleReply,
    OracleRequest,
    ORACLE_GAS_LIMIT,
};
use crate::records::{GovernorError, Proposal, ProposalVote, VoteType, ONE_MINUTE};
use crate::snapshot::{state_of, voter_lists, Snapshot};
use crate::state::{propose_result, window_end, GovernorState};
use crate::treasury::{payment_order, Payment};

verus! {

/// The governance engine.
#[derive(Debug)]
pub struct Governor {
    proposals: Vec<Proposal>,
    proposal_votes: Vec<ProposalVote>,
    votes: Vec<Vec<AccountId>>,
    next_proposal_id: u128,
    governance_token: AccountId,
    quorum: u8,
}

impl View for Governor {
    type V = GovernorState;

    closed spec fn view(&self) -> GovernorState {
        GovernorState {
            next_proposal_id: self.next_proposal_id,
            ..state_of(
                self.governance_token,
                self.quorum,
                self.proposals@,
                self.proposal_votes@,
                self.voters(),
            )
        }
    }
}

/// What a [`Ballot`] stands for.
pub struct BallotView {
    pub proposal_id: u128,
    pub voter: AccountId,
    pub vote: VoteType,
}

/// A vote that was admitted and has not been weighed yet.
///
/// Only [`Governor::admit_vote`] makes one, and [`Governor::tally_vote`] uses
/// it up: a vote cannot be counted without having been admitted, nor counted
/// twice.
#[derive(Debug)]
pub struct Ballot {
    proposal_id: u128,
    voter: AccountId,
    vote: VoteType,
}

impl View for Ballot {
    type V = BallotView;

    closed spec fn view(&self) -> BallotView {
        BallotView { proposal_id: self.proposal_id, voter: self.voter, vote: self.vote }
    }
}

impl Ballot {
    /// The proposal this ballot is for.
    pub fn proposal_id(&self) -> (id: u128)
        ensures
            id == self@.proposal_id,
    {
        self.proposal_id
    }

    /// The account that cast this ballot.
    pub fn voter(&self) -> (voter: AccountId)
        ensures
            voter == self@.voter,
    {
        self.voter
    }

    /// The direction of this ballot.
    pub fn vote(&self) -> (vote: VoteType)
        ensures
            vote == self@.vote,
    {
        self.vote
    }
}

impl Governor {
    /// The voters of each proposal, as sequences.
    closed spec fn voters(&self) -> Seq<Seq<AccountId>> {
        voter_lists(self.votes@)
    }

    /// The three stores have one entry for each identifier handed out.
    pub closed spec fn stores_aligned(&self) -> bool {
        &&& self.proposals@.len() == self.next_proposal_id
        &&& self.proposal_votes@.len() == self.next_proposal_id
        &&& self.votes@.len() == self.next_proposal_id
    }

    /// The engine is in order. Every engine that [`Governor::new`] or
    /// [`Governor::restore`] returns is, and every operation keeps it so.
    pub open spec fn wf(&self) -> bool {
        &&& self.stores_aligned()
        &&& self@.inv()
    }

    /// A new engine for the token at `governance_token`, with no proposals
    /// and the counter at zero. `quorum` is the turnout, in percent of the
    /// token's supply, that a proposal needs before it can be executed.
    pub fn new(governance_token: AccountId, quorum: u8) -> (governor: Governor)
        ensures
            governor.wf(),
            governor@ == GovernorState::init(governance_token, quorum),
    {
        let governor = Governor {
            proposals: Vec::new(),
            proposal_votes: Vec::new(),
            votes: Vec::new(),
            next_proposal_id: 0,
            governance_token,
            quorum,
        };
        assert(governor@ =~= GovernorState::init(governance_token, quorum));
        governor
    }

    /// Makes a proposal to pay `amount` to `to`, open to votes from `now`
    /// for `duration` minutes.
    ///
    /// Fails with `AmountShouldNotBeZero` if `amount` is zero, else with
    /// `DurationError` if `duration` is zero. Otherwise the proposal is
    /// stored under the counter's value with an empty tally, and the
    /// counter goes up by one.
    ///
    /// The end of the window has to be a time stamp: an accepted proposal
    /// whose window would end beyond the last one is not provided for.
    pub fn propose(&mut self, to: AccountId, amount: u128, duration: u64, now: u64) -> (result:
        Result<(), GovernorError>)
        requires
            old(self).wf(),
            propose_result(amount, duration) is Ok ==> window_end(now, duration) <= u64::MAX,
        ensures
            final(self).wf(),
            result == propose_result(amount, duration),
            final(self)@ == old(self)@.after_propose(to, amount, duration, now),
            old(self)@.evolves_to(final(self)@),
            result is Ok ==> final(self)@.next_proposal_id == old(self)@.next_proposal_id + 1,
    {
        if amount == 0 {
            return Err(GovernorError::AmountShouldNotBeZero);
        }
        if duration == 0 {
            return Err(GovernorError::DurationError);
        }
        let proposal = Proposal {
            to,
            vote_start: now,
            vote_end: now + duration * ONE_MINUTE,
            executed: false,
            amount,
        };
        self.proposals.push(proposal);
        self.proposal_votes.push(ProposalVote::default());
        self.votes.push(Vec::new());
        let count: usize = self.proposals.len();
        assert(self.next_proposal_id + 1 == count);
        self.next_proposal_id = self.next_proposal_id + 1;
        proof {
            let before = old(self)@;
            let id = before.next_proposal_id;
            lemma_propose_step(before, to, amount, duration, now);
            assert(self.voters()[id as int] == Seq::<AccountId>::empty());
            assert forall|pair: (u128, AccountId)|
                self@.voted.contains(pair) <==> before.voted.contains(pair) by {
                if pair.0 < id {
                    assert(self.voters()[pair.0 as int] == old(self).voters()[pair.0 as int]);
                }
            }
            assert(self@.voted =~= before.voted);
            assert(self@ =~= before.after_propose(to, amount, duration, now));
        }
        Ok(())
    }

    /// Casts the vote of `caller` on `proposal_id` at time `now`, given what
    /// the token contract replied when asked for the caller's balance and
    /// for the total supply.
    ///
    /// The vote is first put up for admission as in
    /// [`Governor::admit_vote`]. Once admitted it is on record, and only then
    /// do the replies count: if either question failed, or the total supply
    /// is zero, the call fails with `TransactionFailed` and the caller has
    /// used up the vote. Otherwise the caller's share of the supply, in whole
    /// percent, is added to the tally on the side of `vote`.
    ///
    /// Weights and tallies are kept in 128 bits: an admitted vote whose
    /// balance times 100, or whose weight on top of the tally, does not fit
    /// is not provided for.
    pub fn vote(
        &mut self,
        proposal_id: u128,
        vote: VoteType,
        caller: AccountId,
        now: u64,
        balance: OracleReply,
        total_supply: OracleReply,
    ) -> (result: Result<(), GovernorError>)
        requires
            old(self).wf(),
            old(self)@.admission(proposal_id, caller, now) is Ok ==> weighable(
                balance,
                total_supply,
            ),
            old(self)@.tally_has_room(proposal_id, vote, caller, now, balance, total_supply),
        ensures
            final(self).wf(),
            result == old(self)@.vote_result(proposal_id, caller, now, balance, total_supply),
            final(self)@ == old(self)@.after_vote(
                proposal_id,
                vote,
                caller,
                now,
                balance,
                total_supply,
            ),
            old(self)@.evolves_to(final(self)@),
    {
        proof {
            lemma_vote_step(self@, proposal_id, vote, caller, now, balance, total_supply);
        }
        let ballot = match self.admit_vote(proposal_id, vote, caller, now) {
            Ok(ballot) => ballot,
            Err(error) => {
                return Err(error);
            },
        };
        let weight: u128 = match get_vote_weight(balance, total_supply) {
            Ok(weight) => weight,
            Err(error) => {
                return Err(error);
            },
        };
        assert(self@.tallies.contains_key(proposal_id));
        self.tally_vote(ballot, weight);
        Ok(())
    }

    /// Puts up a vote of `caller` on `proposal_id` at time `now` for
    /// admission.
    ///
    /// The vote is rejected with `ProposalNotFound` if there is no such
    /// proposal, else with `ProposalAlreadyExecuted` if the proposal was
    /// executed, else with `VotePeriodExpired` if `now` is past the end of its
    /// window, else with `AlreadyVoted` if a vote of `caller` on it was
    /// admitted before. Otherwise it is admitted: `caller` is recorded as
    /// having voted, and stays so whatever becomes of the ballot.
    pub fn admit_vote(
        &mut self,
        proposal_id: u128,
        vote: VoteType,
        caller: AccountId,
        now: u64,
    ) -> (result: Result<Ballot, GovernorError>)
        requires
            old(self).wf(),
        ensures
            final(self).wf(),
            final(self)@ == old(self)@.after_admission(proposal_id, caller, now),
            old(self)@.evolves_to(final(self)@),
            match result {
                Ok(ballot) => {
                    &&& old(self)@.admission(proposal_id, caller, now) is Ok
                    &&& ballot@ == (BallotView { proposal_id, voter: caller, vote })
                },
                Err(error) => old(self)@.admission(proposal_id, caller, now) == Err::<
                    (),
                    GovernorError,
                >(error),
            },
    {
        proof {
            lemma_admission_step(self@, proposal_id, caller, now);
        }
        if proposal_id >= self.proposals.len() as u128 {
            return Err(GovernorError::ProposalNotFound);
        }
        let index: usize = proposal_id as usize;
        let proposal = self.proposals[index];
        if proposal.executed {
            return Err(GovernorError::ProposalAlreadyExecuted);
        }
        if proposal.vote_end < now {
            return Err(GovernorError::VotePeriodExpired);
        }
        if self.has_voted(proposal_id, caller) {
            return Err(GovernorError::AlreadyVoted);
        }
        self.votes[index].push(caller);
        proof {
            let before = old(self)@;
            let earlier = old(self).voters()[index as int];
            assert(self.voters()[index as int] == earlier.push(caller));
            assert forall|pair: (u128, AccountId)|
                self@.voted.contains(pair) <==> before.voted.insert(
                    (proposal_id, caller),
                ).contains(pair) by {
                if pair.0 == proposal_id {
                    lemma_seq_contains_after_push(earlier, caller, pair.1);
                } else if pair.0 < self.votes@.len() {
                    assert(self.voters()[pair.0 as int] == old(self).voters()[pair.0 as int]);
                }
            }
            assert(self@.voted =~= before.voted.insert((proposal_id, caller)));
            assert(self@ =~= before.after_admission(proposal_id, caller, now));
        }
        Ok(Ballot { proposal_id, voter: caller, vote })
    }

    /// Adds the weight of an admitted vote to its side of the tally.
    ///
    /// The ballot has to be one that this engine admitted, and the tally
    /// with the weight on top has to fit in 128 bits.
    pub fn tally_vote(&mut self, ballot: Ballot, weight: u128)
        requires
            old(self).wf(),
            old(self)@.tallies.contains_key(ballot@.proposal_id),
            old(self)@.tallies[ballot@.proposal_id].side(ballot@.vote) + weight <= u128::MAX,
        ensures
            final(self).wf(),
            final(self)@ == old(self)@.after_tally(ballot@.proposal_id, ballot@.vote, weight),
            old(self)@.evolves_to(final(self)@),
    {
        proof {
            lemma_tally_step(self@, ballot@.proposal_id, ballot@.vote, weight);
        }
        let count: usize = self.proposal_votes.len();
        assert(ballot.proposal_id < count);
        let index: usize = ballot.proposal_id as usize;
        self.proposal_votes[index].cast(ballot.vote, weight);
        proof {
            assert(self.voters() =~= old(self).voters());
            assert(self@ =~= old(self)@.after_tally(ballot@.proposal_id, ballot@.vote, weight));
        }
    }

    /// Executes the proposal `proposal_id` against a treasury that holds
    /// `balance`.
    ///
    /// Fails with `ProposalNotFound` if there is no such proposal, else with
    /// `ProposalAlreadyExecuted` if it was executed, else with
    /// `QuorumNotReached` if its turnout is below the quorum, else with
    /// `ProposalNotAccepted` if more weight is against it than for it; a tie
    /// is accepted. Otherwise the proposal is marked as executed, for good,
    /// and its payment is ordered as in [`Governor::transfer`]: the mark
    /// stays even if the treasury cannot afford the payment or the payment
    /// fails later.
    pub fn execute(&mut self, proposal_id: u128, balance: u128) -> (result: Result<
        Payment,
        GovernorError,
    >)
        requires
            old(self).wf(),
        ensures
            final(self).wf(),
            result == old(self)@.execute_result(proposal_id, balance),
            final(self)@ == old(self)@.after_execute(proposal_id),
            old(self)@.evolves_to(final(self)@),
    {
        proof {
            lemma_execute_step(self@, proposal_id);
        }
        if proposal_id >= self.proposals.len() as u128 {
            return Err(GovernorError::ProposalNotFound);
        }
        let index: usize = proposal_id as usize;
        let proposal = self.proposals[index];
        if proposal.executed {
            return Err(GovernorError::ProposalAlreadyExecuted);
        }
        let tally = self.proposal_votes[index];
        if tally.total_votes() < self.quorum {
            return Err(GovernorError::QuorumNotReached);
        }
        if tally.for_votes < tally.against_votes {
            return Err(GovernorError::ProposalNotAccepted);
        }
        self.proposals[index].executed = true;
        proof {
            assert(self.voters() =~= old(self).voters());
            assert(self@ =~= old(self)@.after_execute(proposal_id));
        }
        self.transfer(proposal.to, proposal.amount, balance)
    }

    /// Orders the payment of `amount` to `to` out of a treasury that holds
    /// `balance`.
    ///
    /// Fails with `NotEnoughBalance` exactly when `amount` is more than
    /// `balance`. The engine itself is never changed.
    pub fn transfer(&mut self, to: AccountId, amount: u128, balance: u128) -> (result: Result<
        Payment,
        GovernorError,
    >)
        ensures
            *final(self) == *old(self),
            result == payment_order(to, amount, balance),
            amount > balance <==> result == Err::<Payment, GovernorError>(
                GovernorError::NotEnoughBalance,
            ),
    {
        if amount > balance {
            return Err(GovernorError::NotEnoughBalance);
        }
        Ok(Payment { to, amount })
    }

    /// The proposal with the given identifier, if there is one.
    pub fn get_proposal(&self, proposal_id: u128) -> (proposal: Option<Proposal>)
        ensures
            proposal == self@.proposals.get(proposal_id),
            self.wf() ==> (proposal is Some <==> proposal_id < self@.next_proposal_id),
    {
        if proposal_id < self.proposals.len() as u128 {
            Some(self.proposals[proposal_id as usize])
        } else {
            None
        }
    }

    /// The identifier that the next proposal will get: the number of
    /// proposals made so far.
    pub fn next_proposal_id(&self) -> (id: u128)
        ensures
            id == self@.next_proposal_id,
    {
        self.next_proposal_id
    }

    /// The tally of the proposal with the given identifier, if there is one.
    pub fn get_proposal_vote(&self, proposal_id: u128) -> (tally: Option<ProposalVote>)
        ensures
            tally == self@.tallies.get(proposal_id),
            self.wf() ==> (tally is Some <==> proposal_id < self@.next_proposal_id),
    {
        if proposal_id < self.proposal_votes.len() as u128 {
            Some(self.proposal_votes[proposal_id as usize])
        } else {
            None
        }
    }

    /// Whether `account` has had a vote admitted on the proposal
    /// `proposal_id`.
    pub fn has_voted(&self, proposal_id: u128, account: AccountId) -> (voted: bool)
        ensures
            voted == self@.voted.contains((proposal_id, account)),
    {
        if proposal_id >= self.votes.len() as u128 {
            return false;
        }
        let voters = &self.votes[proposal_id as usize];
        let mut i: usize = 0;
        while i < voters.len()
            invariant
                proposal_id < self.votes@.len(),
                *voters == self.votes@[proposal_id as int],
                i <= voters@.len(),
                forall|j: int| 0 <= j < i ==> voters@[j] != account,
            decreases voters@.len() - i,
        {
            if voters[i] == account {
                assert(voters@.contains(account));
                return true;
            }
            i += 1;
        }
        assert(!voters@.contains(account));
        false
    }

    /// The question that tells how many tokens `account` holds.
    pub fn balance_request(&self, account: AccountId) -> (request: OracleRequest)
        ensures
            request == (OracleRequest {
                token: self@.governance_token,
                gas_limit: ORACLE_GAS_LIMIT,
                query: OracleQuery::BalanceOf(account),
            }),
    {
        OracleRequest {
            token: self.governance_token,
            gas_limit: ORACLE_GAS_LIMIT,
            query: OracleQuery::BalanceOf(account),
        }
    }

    /// The question that tells how many tokens there are in all.
    pub fn total_supply_request(&self) -> (request: OracleRequest)
        ensures
            request == (OracleRequest {
                token: self@.governance_token,
                gas_limit: ORACLE_GAS_LIMIT,
                query: OracleQuery::TotalSupply,
            }),
    {
        OracleRequest {
            token: self.governance_token,
            gas_limit: ORACLE_GAS_LIMIT,
            query: OracleQuery::TotalSupply,
        }
    }

    /// The engine that `snapshot` records, if there is one: a snapshot whose
    /// lists differ in length, or that holds a proposal no engine would have
    /// stored, is refused.
    pub fn restore(snapshot: Snapshot) -> (governor: Option<Governor>)
        ensures
            governor is Some <==> snapshot.restorable(),
            governor matches Some(engine) ==> engine.wf() && engine@ == snapshot.state(),
    {
        let count: usize = snapshot.proposals.len();
        if snapshot.proposal_votes.len() != count || snapshot.votes.len() != count {
            return None;
        }
        let mut index: usize = 0;
        while index < count
            invariant
                index <= count,
                count == snapshot.proposals@.len(),
                forall|seen: int|
                    0 <= seen < index ==> (#[trigger] snapshot.proposals@[seen]).well_formed(),
            decreases count - index,
        {
            let proposal = snapshot.proposals[index];
            if proposal.amount == 0 || proposal.vote_start >= proposal.vote_end {
                assert(!snapshot.proposals@[index as int].well_formed());
                return None;
            }
            if (proposal.vote_end - proposal.vote_start) % ONE_MINUTE != 0 {
                assert(!snapshot.proposals@[index as int].well_formed());
                return None;
            }
            index += 1;
        }
        let governor = Governor {
            proposals: snapshot.proposals,
            proposal_votes: snapshot.proposal_votes,
            votes: snapshot.votes,
            next_proposal_id: count as u128,
            governance_token: snapshot.governance_token,
            quorum: snapshot.quorum,
        };
        assert(governor@ =~= snapshot.state());
        Some(governor)
    }

    /// Takes the engine apart into a snapshot that records its state and
    /// from which [`Governor::restore`] makes it again.
    pub fn into_snapshot(self) -> (snapshot: Snapshot)
        requires
            self.wf(),
        ensures
            snapshot.restorable(),
            snapshot.state() == self@,
    {
        let snapshot = Snapshot {
            governance_token: self.governance_token,
            quorum: self.quorum,
            proposals: self.proposals,
            proposal_votes: self.proposal_votes,
            votes: self.votes,
        };
        proof {
            assert forall|id: int| 0 <= id < snapshot.proposals@.len() implies (
            #[trigger] snapshot.proposals@[id]).well_formed() by {
                assert(self@.proposals.contains_key(id as u128));
            }
            assert(snapshot.state() =~= self@);
        }
        snapshot
    }
}

} // verus!
