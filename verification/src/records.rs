//! The records the engine keeps, and the results it reports.

use vstd::prelude::*;
use crate::account::AccountId;

verus! {

/// Seconds in a minute: proposal durations are given in minutes, time stamps in
/// seconds.
pub const ONE_MINUTE: u64 = 60;

/// The direction of a vote.
#[derive(Clone, Copy, Debug, PartialEq, Eq, Structural)]
pub enum VoteType {
    For,
    Against,
}

/// Everything that can go wrong. Each failing operation reports exactly one
/// of these.
#[derive(Clone, Copy, Debug, PartialEq, Eq, Structural)]
pub enum GovernorError {
    AmountShouldNotBeZero,
    DurationError,
    QuorumNotReached,
    ProposalNotAccepted,
    ProposalNotFound,
    ProposalAlreadyExecuted,
    VotePeriodExpired,
    AlreadyVoted,
    TransactionFailed,
    NotEnoughBalance,
}

/// A request to pay `amount` to `to`, open to votes from `vote_start` to
/// `vote_end` inclusive.
#[derive(Clone, Copy, Debug, PartialEq, Eq)]
pub struct Proposal {
    pub to: AccountId,
    pub vote_start: u64,
    pub vote_end: u64,
    pub executed: bool,
    pub amount: u128,
}

impl Proposal {
    /// The length of the voting window in minutes.
    pub open spec fn duration(self) -> int {
        (self.vote_end - self.vote_start) / (ONE_MINUTE as int)
    }

    /// What holds of every proposal the engine stores: it pays a non-zero
    /// amount, and its window spans a whole, positive number of minutes.
    pub open spec fn well_formed(self) -> bool {
        &&& self.amount > 0
        &&& self.vote_start < self.vote_end
        &&& (self.vote_end - self.vote_start) % (ONE_MINUTE as int) == 0
    }

    /// `later` is this proposal at a later time: the terms are the same, and
    /// an execution is never undone.
    pub open spec fn frozen_in(self, later: Proposal) -> bool {
        &&& later.to == self.to
        &&& later.vote_start == self.vote_start
        &&& later.vote_end == self.vote_end
        &&& later.amount == self.amount
        &&& self.executed ==> later.executed
    }

    /// This proposal, marked as executed.
    pub open spec fn marked_executed(self) -> Proposal {
        Proposal { executed: true, ..self }
    }
}

/// The weight cast for and against one proposal so far.
#[derive(Clone, Copy, Debug, PartialEq, Eq)]
pub struct ProposalVote {
    pub for_votes: u128,
    pub against_votes: u128,
}

impl Default for ProposalVote {
    fn default() -> (tally: ProposalVote)
        ensures
            tally == ProposalVote::zero(),
    {
        ProposalVote { for_votes: 0, against_votes: 0 }
    }
}

impl ProposalVote {
    /// The tally of a proposal nobody has voted on.
    pub open spec fn zero() -> ProposalVote {
        ProposalVote { for_votes: 0, against_votes: 0 }
    }

    /// The weight cast so far in the direction `vote`.
    pub open spec fn side(self, vote: VoteType) -> u128 {
        match vote {
            VoteType::For => self.for_votes,
            VoteType::Against => self.against_votes,
        }
    }

    /// This tally after `weight` more was cast in the direction `vote`.
    pub open spec fn with_vote(self, vote: VoteType, weight: u128) -> ProposalVote
        recommends
            self.side(vote) + weight <= u128::MAX,
    {
        match vote {
            VoteType::For => ProposalVote {
                for_votes: (self.for_votes + weight) as u128,
                ..self
            },
            VoteType::Against => ProposalVote {
                against_votes: (self.against_votes + weight) as u128,
                ..self
            },
        }
    }

    /// The turnout that is held against the quorum: all the weight cast,
    /// reduced to eight bits. A turnout of 256 or more wraps around.
    pub open spec fn spec_total_votes(&self) -> u8 {
        ((self.for_votes + self.against_votes) % 256) as u8
    }

    /// No weight was ever taken back between this tally and `later`.
    pub open spec fn grown_into(self, later: ProposalVote) -> bool {
        &&& self.for_votes <= later.for_votes
        &&& self.against_votes <= later.against_votes
    }

    /// The turnout that is held against the quorum.
    #[verifier::when_used_as_spec(spec_total_votes)]
    pub fn total_votes(&self) -> (total: u8)
        ensures
            total == self.spec_total_votes(),
            total as int == (self.for_votes + self.against_votes) % 256,
    {
        let sum: u128 = self.for_votes.wrapping_add(self.against_votes);
        let total: u8 = sum as u8;
        assert(total == sum % 256) by (bit_vector)
            requires
                total == sum as u8,
        ;
        assert(sum as int % 256 == (self.for_votes + self.against_votes) % 256) by {
            if self.for_votes + self.against_votes > u128::MAX {
                assert(sum == self.for_votes + self.against_votes
                    - 0x1_0000_0000_0000_0000_0000_0000_0000_0000);
            }
        }
        total
    }

    /// Adds `weight` to the side that `vote` names.
    pub fn cast(&mut self, vote: VoteType, weight: u128)
        requires
            old(self).side(vote) + weight <= u128::MAX,
        ensures
            *final(self) == old(self).with_vote(vote, weight),
            final(self).side(vote) == old(self).side(vote) + weight,
            old(self).grown_into(*final(self)),
    {
        match vote {
            VoteType::For => {
                self.for_votes = self.for_votes + weight;
            },
            VoteType::Against => {
                self.against_votes = self.against_votes + weight;
            },
        }
    }
}

} // verus!
