//! The engine over any number of calls.
//!
//! The laws of the engine speak of "every state that can follow" a given
//! one. This module says which states those are: whatever calls are made to
//! the engine, in whatever order and with whatever arguments, the state they
//! lead to is in order and can follow the state they started from.

use vstd::prelude::*;
use crate::account::AccountId;
use crate::laws::{
    lemma_evolves_transitive,
    lemma_execute_step,
    lemma_init_inv,
    lemma_propose_step,
    lemma_vote_step,
};
use crate::oracle::{weighable, OracleReply};
use crate::records::VoteType;
use crate::state::{propose_result, window_end, GovernorState};

verus! {

/// One call that changes the engine, with all that it was given.
pub enum Call {
    Propose { to: AccountId, amount: u128, duration: u64, now: u64 },
    Vote {
        proposal_id: u128,
        vote: VoteType,
        caller: AccountId,
        now: u64,
        balance: OracleReply,
        total_supply: OracleReply,
    },
    Execute { proposal_id: u128 },
}

impl GovernorState {
    /// Whether the engine provides for a call in this state: what the
    /// operation it stands for asks of its arguments. For a proposal that
    /// is accepted, the window ends at a time stamp and the counter has room
    /// to go up; for a vote that is admitted, its weight can be computed and
    /// fits on top of the tally.
    pub open spec fn provides_for(self, call: Call) -> bool {
        match call {
            Call::Propose { to, amount, duration, now } => propose_result(amount, duration) is Ok
                ==> window_end(now, duration) <= u64::MAX && self.next_proposal_id < u128::MAX,
            Call::Vote { proposal_id, vote, caller, now, balance, total_supply } => {
                &&& self.admission(proposal_id, caller, now) is Ok ==> weighable(
                    balance,
                    total_supply,
                )
                &&& self.tally_has_room(proposal_id, vote, caller, now, balance, total_supply)
            },
            Call::Execute { proposal_id } => true,
        }
    }

    /// The state after a call.
    pub open spec fn after(self, call: Call) -> GovernorState {
        match call {
            Call::Propose { to, amount, duration, now } => self.after_propose(
                to,
                amount,
                duration,
                now,
            ),
            Call::Vote { proposal_id, vote, caller, now, balance, total_supply } => self.after_vote(
                proposal_id,
                vote,
                caller,
                now,
                balance,
                total_supply,
            ),
            Call::Execute { proposal_id } => self.after_execute(proposal_id),
        }
    }

    /// Whether the engine provides for each of `calls` in the state in which
    /// that call finds it.
    pub open spec fn provides_for_all(self, calls: Seq<Call>) -> bool
        decreases calls.len(),
    {
        calls.len() > 0 ==> self.provides_for(calls.first()) && self.after(
            calls.first(),
        ).provides_for_all(calls.drop_first())
    }

    /// The state after `calls`, made one after the other.
    pub open spec fn after_all(self, calls: Seq<Call>) -> GovernorState
        decreases calls.len(),
    {
        if calls.len() == 0 {
            self
        } else {
            self.after(calls.first()).after_all(calls.drop_first())
        }
    }
}

/// One call keeps the engine in order and takes nothing back.
pub proof fn lemma_call_step(state: GovernorState, call: Call)
    requires
        state.inv(),
        state.provides_for(call),
    ensures
        state.after(call).inv(),
        state.evolves_to(state.after(call)),
{
    match call {
        Call::Propose { to, amount, duration, now } => {
            if propose_result(amount, duration) is Ok {
                lemma_propose_step(state, to, amount, duration, now);
            }
        },
        Call::Vote { proposal_id, vote, caller, now, balance, total_supply } => {
            lemma_vote_step(state, proposal_id, vote, caller, now, balance, total_supply);
        },
        Call::Execute { proposal_id } => {
            lemma_execute_step(state, proposal_id);
        },
    }
}

/// Any number of calls keep the engine in order and take nothing back: in
/// the state they lead to the configuration is the same, the counter has not
/// gone back, every proposal is still there on its old terms, and still
/// executed if it was, no tally has shrunk and no vote record is gone.
pub proof fn lemma_history(state: GovernorState, calls: Seq<Call>)
    requires
        state.inv(),
        state.provides_for_all(calls),
    ensures
        state.after_all(calls).inv(),
        state.evolves_to(state.after_all(calls)),
    decreases calls.len(),
{
    if calls.len() > 0 {
        let next = state.after(calls.first());
        lemma_call_step(state, calls.first());
        lemma_history(next, calls.drop_first());
        lemma_evolves_transitive(state, next, next.after_all(calls.drop_first()));
    }
}

/// Every state that a new engine reaches is in order.
pub proof fn lemma_reachable_states_are_in_order(
    governance_token: AccountId,
    quorum: u8,
    calls: Seq<Call>,
)
    requires
        GovernorState::init(governance_token, quorum).provides_for_all(calls),
    ensures
        GovernorState::init(governance_token, quorum).after_all(calls).inv(),
        GovernorState::init(governance_token, quorum).after_all(calls).governance_token
            == governance_token,
        GovernorState::init(governance_token, quorum).after_all(calls).quorum == quorum,
{
    lemma_init_inv(governance_token, quorum);
    lemma_history(GovernorState::init(governance_token, quorum), calls);
}

} // verus!
