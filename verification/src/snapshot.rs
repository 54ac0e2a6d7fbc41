//! The engine's state in a form that can be stored.
//!
//! The engine lives in memory. A host that has to keep it across calls takes
//! a [`Snapshot`] of it, stores that, and has the engine made again from it.

use vstd::prelude::*;
use crate::account::AccountId;
use crate::records::{Proposal, ProposalVote};
use crate::state::GovernorState;

verus! {

/// The voters of each proposal, as sequences.
pub open spec fn voter_lists(votes: Seq<Vec<AccountId>>) -> Seq<Seq<AccountId>> {
    Seq::new(votes.len(), |id: int| votes[id]@)
}

/// The mappings and the set that three aligned sequences stand for: the
/// entries at index `id` belong to the proposal `id`, and the counter is
/// their number.
pub open spec fn state_of(
    governance_token: AccountId,
    quorum: u8,
    proposals: Seq<Proposal>,
    tallies: Seq<ProposalVote>,
    voters: Seq<Seq<AccountId>>,
) -> GovernorState {
    GovernorState {
        proposals: Map::new(|id: u128| id < proposals.len(), |id: u128| proposals[id as int]),
        tallies: Map::new(|id: u128| id < tallies.len(), |id: u128| tallies[id as int]),
        voted: Set::new(
            |pair: (u128, AccountId)|
                pair.0 < voters.len() && voters[pair.0 as int].contains(pair.1),
        ),
        next_proposal_id: proposals.len() as u128,
        governance_token,
        quorum,
    }
}

/// All that an engine holds, laid open.
///
/// The entries at index `id` of the three lists belong to the proposal `id`:
/// the proposal itself, its tally, and the accounts whose votes on it were
/// admitted.
#[derive(Clone, Debug, PartialEq, Eq)]
pub struct Snapshot {
    pub governance_token: AccountId,
    pub quorum: u8,
    pub proposals: Vec<Proposal>,
    pub proposal_votes: Vec<ProposalVote>,
    pub votes: Vec<Vec<AccountId>>,
}

impl Snapshot {
    /// The state that this snapshot records.
    pub open spec fn state(&self) -> GovernorState {
        state_of(
            self.governance_token,
            self.quorum,
            self.proposals@,
            self.proposal_votes@,
            voter_lists(self.votes@),
        )
    }

    /// Whether an engine can be made of this snapshot: the three lists are
    /// of one length, and every proposal is well formed.
    pub open spec fn restorable(&self) -> bool {
        &&& self.proposals@.len() == self.proposal_votes@.len()
        &&& self.proposals@.len() == self.votes@.len()
        &&& forall|id: int|
            0 <= id < self.proposals@.len() ==> (#[trigger] self.proposals@[id]).well_formed()
    }
}

} // verus!
