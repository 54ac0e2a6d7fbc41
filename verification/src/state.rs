//! The engine as a mathematical state machine.
//!
//! [`GovernorState`] is what the engine knows, as three mappings and a
//! counter. Each operation of the engine is described here twice over: by the
//! result it reports (`..._result`) and by the state it leaves behind
//! (`after_...`). The executable engine is proved to follow these functions,
//! and the laws of the engine are proved about them.

use vstd::prelude::*;
use crate::account::AccountId;
use crate::oracle::{weighing, OracleReply};
use crate::records::{GovernorError, Proposal, ProposalVote, VoteType, ONE_MINUTE};
use crate::treasury::{payment_order, Payment};

verus! {

/// The end of a voting window that opens at `now` and lasts `duration`
/// minutes.
pub open spec fn window_end(now: u64, duration: u64) -> int {
    now + duration * ONE_MINUTE
}

/// The proposal that a successful `propose` stores.
pub open spec fn opened(to: AccountId, amount: u128, duration: u64, now: u64) -> Proposal
    recommends
        window_end(now, duration) <= u64::MAX,
{
    Proposal {
        to,
        vote_start: now,
        vote_end: window_end(now, duration) as u64,
        executed: false,
        amount,
    }
}

/// Whether `propose` accepts an amount and a duration. The amount is looked
/// at first.
pub open spec fn propose_result(amount: u128, duration: u64) -> Result<(), GovernorError> {
    if amount == 0 {
        Err(GovernorError::AmountShouldNotBeZero)
    } else if duration == 0 {
        Err(GovernorError::DurationError)
    } else {
        Ok(())
    }
}

/// Everything the engine knows.
#[verifier::ext_equal]
pub struct GovernorState {
    /// The proposals made so far, by identifier.
    pub proposals: Map<u128, Proposal>,
    /// The weight cast on each proposal, by identifier.
    pub tallies: Map<u128, ProposalVote>,
    /// Who has voted on what: a pair is in the set once that account's vote on
    /// that proposal was admitted.
    pub voted: Set<(u128, AccountId)>,
    /// The identifier the next proposal will get.
    pub next_proposal_id: u128,
    /// The contract of the token that gives votes their weight.
    pub governance_token: AccountId,
    /// The turnout a proposal needs before it can be executed.
    pub quorum: u8,
}

impl GovernorState {
    /// The state of a new engine: no proposals, no votes, the counter at
    /// zero.
    pub open spec fn init(governance_token: AccountId, quorum: u8) -> GovernorState {
        GovernorState {
            proposals: Map::empty(),
            tallies: Map::empty(),
            voted: Set::empty(),
            next_proposal_id: 0,
            governance_token,
            quorum,
        }
    }

    /// What holds of every state the engine reaches: the identifiers in use
    /// are exactly those below the counter, every proposal has a tally, votes
    /// are recorded for existing proposals only, and every proposal is well
    /// formed.
    pub open spec fn inv(self) -> bool {
        &&& forall|id: u128| #[trigger] self.proposals.contains_key(id) <==> id < self.next_proposal_id
        &&& forall|id: u128| #[trigger] self.tallies.contains_key(id) <==> id < self.next_proposal_id
        &&& forall|id: u128, who: AccountId| #[trigger]
            self.voted.contains((id, who)) ==> id < self.next_proposal_id
        &&& forall|id: u128| #[trigger]
            self.proposals.contains_key(id) ==> self.proposals[id].well_formed()
    }

    /// `later` can follow this state: the configuration is the same, the
    /// counter has not gone back, every proposal is still there on its old
    /// terms and still executed if it was, no tally has shrunk and no vote
    /// record is gone.
    pub open spec fn evolves_to(self, later: GovernorState) -> bool {
        &&& later.governance_token == self.governance_token
        &&& later.quorum == self.quorum
        &&& self.next_proposal_id <= later.next_proposal_id
        &&& forall|id: u128| #[trigger]
            self.proposals.contains_key(id) ==> later.proposals.contains_key(id)
                && self.proposals[id].frozen_in(later.proposals[id])
        &&& forall|id: u128| #[trigger]
            self.tallies.contains_key(id) ==> later.tallies.contains_key(id)
                && self.tallies[id].grown_into(later.tallies[id])
        &&& forall|id: u128, who: AccountId| #[trigger]
            self.voted.contains((id, who)) ==> later.voted.contains((id, who))
    }

    /// The state after `propose`: on success the new proposal and an empty
    /// tally under the counter's value, and the counter one higher; on failure
    /// no change. (A counter at the top of its range would wrap; the engine
    /// never gets there.)
    pub open spec fn after_propose(
        self,
        to: AccountId,
        amount: u128,
        duration: u64,
        now: u64,
    ) -> GovernorState
        recommends
            window_end(now, duration) <= u64::MAX,
    {
        if propose_result(amount, duration) is Ok {
            GovernorState {
                proposals: self.proposals.insert(
                    self.next_proposal_id,
                    opened(to, amount, duration, now),
                ),
                tallies: self.tallies.insert(self.next_proposal_id, ProposalVote::zero()),
                next_proposal_id: (self.next_proposal_id + 1) as u128,
                ..self
            }
        } else {
            self
        }
    }

    /// Whether `caller` may vote on `proposal_id` at time `now`. The checks
    /// come in this order, and the first that fails decides: the proposal
    /// exists, it is not executed, its window has not closed, the caller has
    /// not voted on it.
    pub open spec fn admission(self, proposal_id: u128, caller: AccountId, now: u64) -> Result<
        (),
        GovernorError,
    > {
        if !self.proposals.contains_key(proposal_id) {
            Err(GovernorError::ProposalNotFound)
        } else if self.proposals[proposal_id].executed {
            Err(GovernorError::ProposalAlreadyExecuted)
        } else if now > self.proposals[proposal_id].vote_end {
            Err(GovernorError::VotePeriodExpired)
        } else if self.voted.contains((proposal_id, caller)) {
            Err(GovernorError::AlreadyVoted)
        } else {
            Ok(())
        }
    }

    /// The state after a vote was put up for admission: if it was admitted,
    /// the caller is recorded as having voted; otherwise no change.
    pub open spec fn after_admission(
        self,
        proposal_id: u128,
        caller: AccountId,
        now: u64,
    ) -> GovernorState {
        if self.admission(proposal_id, caller, now) is Ok {
            GovernorState { voted: self.voted.insert((proposal_id, caller)), ..self }
        } else {
            self
        }
    }

    /// The state after `weight` was added to one side of a proposal's tally.
    pub open spec fn after_tally(
        self,
        proposal_id: u128,
        vote: VoteType,
        weight: u128,
    ) -> GovernorState
        recommends
            self.tallies.contains_key(proposal_id),
            self.tallies[proposal_id].side(vote) + weight <= u128::MAX,
    {
        GovernorState {
            tallies: self.tallies.insert(
                proposal_id,
                self.tallies[proposal_id].with_vote(vote, weight),
            ),
            ..self
        }
    }

    /// The result of `vote`: the reason the vote was not admitted, or else
    /// the reason it has no weight, or else success.
    pub open spec fn vote_result(
        self,
        proposal_id: u128,
        caller: AccountId,
        now: u64,
        balance: OracleReply,
        total_supply: OracleReply,
    ) -> Result<(), GovernorError> {
        match self.admission(proposal_id, caller, now) {
            Err(error) => Err(error),
            Ok(_) => match weighing(balance, total_supply) {
                Err(error) => Err(error),
                Ok(_) => Ok(()),
            },
        }
    }

    /// The state after `vote`. A vote that is not admitted changes nothing.
    /// An admitted vote is recorded whether or not it turns out to have a
    /// weight, and if it has one the weight is added to its side of the
    /// tally.
    pub open spec fn after_vote(
        self,
        proposal_id: u128,
        vote: VoteType,
        caller: AccountId,
        now: u64,
        balance: OracleReply,
        total_supply: OracleReply,
    ) -> GovernorState {
        let admitted = self.after_admission(proposal_id, caller, now);
        match (self.admission(proposal_id, caller, now), weighing(balance, total_supply)) {
            (Ok(_), Ok(weight)) => admitted.after_tally(proposal_id, vote, weight),
            _ => admitted,
        }
    }

    /// Whether the weight that an admitted vote would add fits into the
    /// tally. Votes that add nothing are always fine.
    pub open spec fn tally_has_room(
        self,
        proposal_id: u128,
        vote: VoteType,
        caller: AccountId,
        now: u64,
        balance: OracleReply,
        total_supply: OracleReply,
    ) -> bool {
        match (self.admission(proposal_id, caller, now), weighing(balance, total_supply)) {
            (Ok(_), Ok(weight)) => self.tallies[proposal_id].side(vote) + weight <= u128::MAX,
            _ => true,
        }
    }

    /// Whether a proposal may be executed. The checks come in this order, and
    /// the first that fails decides: the proposal exists, it is not executed,
    /// its turnout is not below the quorum, the weight against it is not
    /// greater than the weight for it.
    pub open spec fn verdict(self, proposal_id: u128) -> Result<(), GovernorError> {
        if !self.proposals.contains_key(proposal_id) {
            Err(GovernorError::ProposalNotFound)
        } else if self.proposals[proposal_id].executed {
            Err(GovernorError::ProposalAlreadyExecuted)
        } else if self.tallies[proposal_id].total_votes() < self.quorum {
            Err(GovernorError::QuorumNotReached)
        } else if self.tallies[proposal_id].for_votes < self.tallies[proposal_id].against_votes {
            Err(GovernorError::ProposalNotAccepted)
        } else {
            Ok(())
        }
    }

    /// The result of `execute` when the treasury holds `balance`: the reason
    /// the proposal may not be executed, or else the payment it orders if the
    /// treasury can afford it.
    pub open spec fn execute_result(self, proposal_id: u128, balance: u128) -> Result<
        Payment,
        GovernorError,
    > {
        match self.verdict(proposal_id) {
            Err(error) => Err(error),
            Ok(_) => payment_order(
                self.proposals[proposal_id].to,
                self.proposals[proposal_id].amount,
                balance,
            ),
        }
    }

    /// The state after `execute`: a proposal that may be executed is marked
    /// as executed, whatever becomes of its payment; otherwise no change.
    pub open spec fn after_execute(self, proposal_id: u128) -> GovernorState {
        if self.verdict(proposal_id) is Ok {
            GovernorState {
                proposals: self.proposals.insert(
                    proposal_id,
                    self.proposals[proposal_id].marked_executed(),
                ),
                ..self
            }
        } else {
            self
        }
    }
}

} // verus!
