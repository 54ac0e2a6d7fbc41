//! Laws of the engine, proved about the state machine that the executable
//! engine follows.
//!
//! First come the steps: each operation keeps the engine in order
//! (`GovernorState::inv`) and takes nothing back
//! (`GovernorState::evolves_to`). Then come the laws proper. Where one of
//! them speaks of a state that can follow another, it holds in particular of
//! every state that calls to the engine lead to: see `lemma_history`.

use vstd::prelude::*;
use crate::account::AccountId;
use crate::oracle::{weighing, weight, OracleReply};
use crate::records::{GovernorError, ProposalVote, VoteType};
use crate::state::{opened, propose_result, window_end, GovernorState};
use crate::treasury::{payment_order, Payment};

verus! {

/// A new engine is in order.
pub proof fn lemma_init_inv(governance_token: AccountId, quorum: u8)
    ensures
        GovernorState::init(governance_token, quorum).inv(),
{
}

/// What can follow a later state can follow the earlier one: the promises of
/// `evolves_to` hold over any number of operations.
pub proof fn lemma_evolves_transitive(
    first: GovernorState,
    second: GovernorState,
    third: GovernorState,
)
    requires
        first.evolves_to(second),
        second.evolves_to(third),
    ensures
        first.evolves_to(third),
{
    assert forall|id: u128| #[trigger] first.proposals.contains_key(id) implies (
    third.proposals.contains_key(id) && first.proposals[id].frozen_in(third.proposals[id])) by {
        assert(second.proposals.contains_key(id));
    }
    assert forall|id: u128| #[trigger] first.tallies.contains_key(id) implies (
    third.tallies.contains_key(id) && first.tallies[id].grown_into(third.tallies[id])) by {
        assert(second.tallies.contains_key(id));
    }
    assert forall|id: u128, who: AccountId| #[trigger]
        first.voted.contains((id, who)) implies third.voted.contains((id, who)) by {
        assert(second.voted.contains((id, who)));
    }
}

/// `propose` keeps the engine in order and takes nothing back. The proposal
/// it stores opens at the time of the call and closes exactly `duration`
/// minutes later; the counter goes up by exactly one. A rejected call
/// changes nothing.
pub proof fn lemma_propose_step(
    state: GovernorState,
    to: AccountId,
    amount: u128,
    duration: u64,
    now: u64,
)
    requires
        state.inv(),
        state.next_proposal_id < u128::MAX,
        window_end(now, duration) <= u64::MAX,
    ensures
        state.after_propose(to, amount, duration, now).inv(),
        state.evolves_to(state.after_propose(to, amount, duration, now)),
        propose_result(amount, duration) is Err ==> state.after_propose(to, amount, duration, now)
            == state,
        propose_result(amount, duration) is Ok ==> ({
            let after = state.after_propose(to, amount, duration, now);
            let stored = after.proposals[state.next_proposal_id];
            &&& after.next_proposal_id == state.next_proposal_id + 1
            &&& after.proposals.contains_key(state.next_proposal_id)
            &&& stored.to == to
            &&& stored.amount == amount
            &&& !stored.executed
            &&& stored.vote_start == now
            &&& stored.vote_end == stored.vote_start + duration * 60
            &&& stored.duration() == duration
            &&& after.tallies[state.next_proposal_id] == ProposalVote::zero()
        }),
{
    let after = state.after_propose(to, amount, duration, now);
    if propose_result(amount, duration) is Ok {
        let id = state.next_proposal_id;
        let stored = opened(to, amount, duration, now);
        assert(stored.vote_end - stored.vote_start == duration * 60);
        assert(stored.well_formed());
        assert(stored.duration() == duration);
        assert(!state.proposals.contains_key(id));
        assert forall|other: u128| #[trigger] after.proposals.contains_key(other) implies after.proposals[other].well_formed() by {
            if other != id {
                assert(state.proposals.contains_key(other));
            }
        }
        assert forall|other: u128, who: AccountId| #[trigger]
            after.voted.contains((other, who)) implies other < after.next_proposal_id by {
            assert(state.voted.contains((other, who)));
        }
    }
}

/// Putting a vote up for admission keeps the engine in order and takes
/// nothing back. An admitted vote is on record afterwards; a rejected one
/// changes nothing.
pub proof fn lemma_admission_step(
    state: GovernorState,
    proposal_id: u128,
    caller: AccountId,
    now: u64,
)
    requires
        state.inv(),
    ensures
        state.after_admission(proposal_id, caller, now).inv(),
        state.evolves_to(state.after_admission(proposal_id, caller, now)),
        state.admission(proposal_id, caller, now) is Ok ==> state.after_admission(
            proposal_id,
            caller,
            now,
        ).voted.contains((proposal_id, caller)),
        state.admission(proposal_id, caller, now) is Err ==> state.after_admission(
            proposal_id,
            caller,
            now,
        ) == state,
{
    let after = state.after_admission(proposal_id, caller, now);
    if state.admission(proposal_id, caller, now) is Ok {
        assert(state.proposals.contains_key(proposal_id));
        assert forall|other: u128, who: AccountId| #[trigger]
            after.voted.contains((other, who)) implies other < after.next_proposal_id by {
            if (other, who) != (proposal_id, caller) {
                assert(state.voted.contains((other, who)));
            }
        }
    }
}

/// Adding weight to a tally keeps the engine in order and takes nothing
/// back.
pub proof fn lemma_tally_step(
    state: GovernorState,
    proposal_id: u128,
    vote: VoteType,
    weight: u128,
)
    requires
        state.inv(),
        state.tallies.contains_key(proposal_id),
        state.tallies[proposal_id].side(vote) + weight <= u128::MAX,
    ensures
        state.after_tally(proposal_id, vote, weight).inv(),
        state.evolves_to(state.after_tally(proposal_id, vote, weight)),
        state.after_tally(proposal_id, vote, weight).tallies[proposal_id].side(vote)
            == state.tallies[proposal_id].side(vote) + weight,
{
    let after = state.after_tally(proposal_id, vote, weight);
    assert forall|other: u128| #[trigger] after.tallies.contains_key(other) <==> other
        < after.next_proposal_id by {
        if other != proposal_id {
            assert(after.tallies.contains_key(other) <==> state.tallies.contains_key(other));
        }
    }
}

/// `vote` keeps the engine in order and takes nothing back.
pub proof fn lemma_vote_step(
    state: GovernorState,
    proposal_id: u128,
    vote: VoteType,
    caller: AccountId,
    now: u64,
    balance: OracleReply,
    total_supply: OracleReply,
)
    requires
        state.inv(),
        state.tally_has_room(proposal_id, vote, caller, now, balance, total_supply),
    ensures
        state.after_vote(proposal_id, vote, caller, now, balance, total_supply).inv(),
        state.evolves_to(
            state.after_vote(proposal_id, vote, caller, now, balance, total_supply),
        ),
{
    let admitted = state.after_admission(proposal_id, caller, now);
    lemma_admission_step(state, proposal_id, caller, now);
    match (state.admission(proposal_id, caller, now), weighing(balance, total_supply)) {
        (Ok(_), Ok(weight)) => {
            assert(state.proposals.contains_key(proposal_id));
            assert(admitted.tallies.contains_key(proposal_id));
            lemma_tally_step(admitted, proposal_id, vote, weight);
            lemma_evolves_transitive(
                state,
                admitted,
                admitted.after_tally(proposal_id, vote, weight),
            );
        },
        _ => {},
    }
}

/// `execute` keeps the engine in order and takes nothing back. A proposal
/// that may be executed is marked as executed, whatever the treasury holds;
/// a rejected call changes nothing.
pub proof fn lemma_execute_step(state: GovernorState, proposal_id: u128)
    requires
        state.inv(),
    ensures
        state.after_execute(proposal_id).inv(),
        state.evolves_to(state.after_execute(proposal_id)),
        state.verdict(proposal_id) is Ok ==> state.after_execute(
            proposal_id,
        ).proposals[proposal_id].executed,
        state.verdict(proposal_id) is Err ==> state.after_execute(proposal_id) == state,
{
    let after = state.after_execute(proposal_id);
    if state.verdict(proposal_id) is Ok {
        assert(state.proposals.contains_key(proposal_id));
        assert forall|other: u128| #[trigger] after.proposals.contains_key(other) <==> other
            < after.next_proposal_id by {
            if other != proposal_id {
                assert(after.proposals.contains_key(other) <==> state.proposals.contains_key(
                    other,
                ));
            }
        }
        assert forall|other: u128| #[trigger] after.proposals.contains_key(other) implies after.proposals[other].well_formed() by {
            assert(state.proposals.contains_key(other));
        }
    }
}

/// Every stored proposal closes a whole, positive number of minutes after it
/// opened: `vote_end == vote_start + duration * 60`.
pub proof fn lemma_stored_window(state: GovernorState, proposal_id: u128)
    requires
        state.inv(),
        state.proposals.contains_key(proposal_id),
    ensures
        state.proposals[proposal_id].duration() > 0,
        state.proposals[proposal_id].vote_end == state.proposals[proposal_id].vote_start
            + state.proposals[proposal_id].duration() * 60,
        state.proposals[proposal_id].amount > 0,
{
}

/// A proposal made at time `now` for `duration` minutes opens at `now` and
/// closes at exactly `now + duration * 60`, and that is still so in every
/// state that can follow.
pub proof fn lemma_voting_window(
    state: GovernorState,
    to: AccountId,
    amount: u128,
    duration: u64,
    now: u64,
    later: GovernorState,
)
    requires
        state.inv(),
        state.next_proposal_id < u128::MAX,
        propose_result(amount, duration) is Ok,
        window_end(now, duration) <= u64::MAX,
        state.after_propose(to, amount, duration, now).evolves_to(later),
    ensures
        later.proposals.contains_key(state.next_proposal_id),
        later.proposals[state.next_proposal_id].vote_start == now,
        later.proposals[state.next_proposal_id].vote_end == now + duration * 60,
        later.proposals[state.next_proposal_id].to == to,
        later.proposals[state.next_proposal_id].amount == amount,
{
    lemma_propose_step(state, to, amount, duration, now);
    let after = state.after_propose(to, amount, duration, now);
    assert(after.proposals.contains_key(state.next_proposal_id));
}

/// Once a vote of an account on a proposal was admitted, no vote of that
/// account on that proposal is admitted again.
///
/// If the first vote succeeded, or failed with `TransactionFailed` because
/// it could not be weighed, then in every state that can follow a vote of
/// the same account on the same proposal fails with `AlreadyVoted` and
/// changes nothing, whatever its direction and whatever the token contract
/// replies, as long as the proposal is still open to votes: not executed,
/// and its window not closed (those two are looked at before the voter is).
pub proof fn lemma_second_vote_rejected(
    state: GovernorState,
    proposal_id: u128,
    caller: AccountId,
    first_vote: VoteType,
    first_now: u64,
    first_balance: OracleReply,
    first_supply: OracleReply,
    later: GovernorState,
    second_vote: VoteType,
    second_now: u64,
    second_balance: OracleReply,
    second_supply: OracleReply,
)
    requires
        state.inv(),
        state.vote_result(proposal_id, caller, first_now, first_balance, first_supply) is Ok
            || state.vote_result(proposal_id, caller, first_now, first_balance, first_supply)
            == Err::<(), GovernorError>(GovernorError::TransactionFailed),
        state.after_vote(
            proposal_id,
            first_vote,
            caller,
            first_now,
            first_balance,
            first_supply,
        ).evolves_to(later),
        !later.proposals[proposal_id].executed,
        second_now <= later.proposals[proposal_id].vote_end,
    ensures
        later.vote_result(proposal_id, caller, second_now, second_balance, second_supply) == Err::<
            (),
            GovernorError,
        >(GovernorError::AlreadyVoted),
        later.after_vote(
            proposal_id,
            second_vote,
            caller,
            second_now,
            second_balance,
            second_supply,
        ) == later,
{
    let after = state.after_vote(
        proposal_id,
        first_vote,
        caller,
        first_now,
        first_balance,
        first_supply,
    );
    assert(state.admission(proposal_id, caller, first_now) is Ok);
    assert(state.proposals.contains_key(proposal_id));
    assert(after.voted.contains((proposal_id, caller)));
    assert(after.proposals.contains_key(proposal_id));
    assert(later.voted.contains((proposal_id, caller)));
    assert(later.proposals.contains_key(proposal_id));
}

/// A vote of an account that is on record for a proposal is never admitted:
/// it fails, with `AlreadyVoted` unless the proposal is executed or its
/// window has closed, and changes nothing.
pub proof fn lemma_recorded_voter_rejected(
    state: GovernorState,
    proposal_id: u128,
    vote: VoteType,
    caller: AccountId,
    now: u64,
    balance: OracleReply,
    total_supply: OracleReply,
)
    requires
        state.inv(),
        state.voted.contains((proposal_id, caller)),
    ensures
        state.vote_result(proposal_id, caller, now, balance, total_supply) == Err::<
            (),
            GovernorError,
        >(
            if state.proposals[proposal_id].executed {
                GovernorError::ProposalAlreadyExecuted
            } else if now > state.proposals[proposal_id].vote_end {
                GovernorError::VotePeriodExpired
            } else {
                GovernorError::AlreadyVoted
            },
        ),
        state.after_vote(proposal_id, vote, caller, now, balance, total_supply) == state,
{
    assert(state.proposals.contains_key(proposal_id));
}

/// `execute` on an identifier that was never handed out fails with
/// `ProposalNotFound` and changes nothing.
pub proof fn lemma_execute_unknown(state: GovernorState, proposal_id: u128, balance: u128)
    requires
        state.inv(),
        proposal_id >= state.next_proposal_id,
    ensures
        state.execute_result(proposal_id, balance) == Err::<Payment, GovernorError>(
            GovernorError::ProposalNotFound,
        ),
        state.after_execute(proposal_id) == state,
{
    assert(!state.proposals.contains_key(proposal_id));
}

/// A proposal is executed at most once.
///
/// If `execute` got as far as marking the proposal (it ordered the payment,
/// or failed with `NotEnoughBalance`), then in every state that can follow
/// `execute` on the same proposal fails with `ProposalAlreadyExecuted` and
/// changes nothing, whatever the treasury holds.
pub proof fn lemma_execute_once(
    state: GovernorState,
    proposal_id: u128,
    balance: u128,
    later: GovernorState,
    later_balance: u128,
)
    requires
        state.inv(),
        state.execute_result(proposal_id, balance) is Ok || state.execute_result(
            proposal_id,
            balance,
        ) == Err::<Payment, GovernorError>(GovernorError::NotEnoughBalance),
        state.after_execute(proposal_id).evolves_to(later),
    ensures
        later.execute_result(proposal_id, later_balance) == Err::<Payment, GovernorError>(
            GovernorError::ProposalAlreadyExecuted,
        ),
        later.after_execute(proposal_id) == later,
{
    assert(state.verdict(proposal_id) is Ok);
    assert(state.proposals.contains_key(proposal_id));
    let after = state.after_execute(proposal_id);
    assert(after.proposals.contains_key(proposal_id));
    assert(after.proposals[proposal_id].executed);
    assert(later.proposals.contains_key(proposal_id));
}

/// An executed proposal takes no more votes: in every state in which it is
/// executed, a vote on it fails with `ProposalAlreadyExecuted`.
pub proof fn lemma_executed_takes_no_votes(
    state: GovernorState,
    proposal_id: u128,
    vote: VoteType,
    caller: AccountId,
    now: u64,
    balance: OracleReply,
    total_supply: OracleReply,
)
    requires
        state.proposals.contains_key(proposal_id),
        state.proposals[proposal_id].executed,
    ensures
        state.vote_result(proposal_id, caller, now, balance, total_supply) == Err::<
            (),
            GovernorError,
        >(GovernorError::ProposalAlreadyExecuted),
        state.after_vote(proposal_id, vote, caller, now, balance, total_supply) == state,
{
}

/// The quorum is met exactly when the turnout, reduced to eight bits, is at
/// least the quorum: a turnout equal to the quorum passes, a turnout one
/// below it fails with `QuorumNotReached`.
pub proof fn lemma_quorum_boundary(state: GovernorState, proposal_id: u128, balance: u128)
    requires
        state.proposals.contains_key(proposal_id),
        !state.proposals[proposal_id].executed,
    ensures
        state.execute_result(proposal_id, balance) == Err::<Payment, GovernorError>(
            GovernorError::QuorumNotReached,
        ) <==> (state.tallies[proposal_id].for_votes + state.tallies[proposal_id].against_votes)
            % 256 < state.quorum,
        (state.tallies[proposal_id].for_votes + state.tallies[proposal_id].against_votes) % 256
            == state.quorum ==> state.execute_result(proposal_id, balance) != Err::<
            Payment,
            GovernorError,
        >(GovernorError::QuorumNotReached),
        (state.tallies[proposal_id].for_votes + state.tallies[proposal_id].against_votes) % 256
            == state.quorum - 1 ==> state.execute_result(proposal_id, balance) == Err::<
            Payment,
            GovernorError,
        >(GovernorError::QuorumNotReached),
{
}

/// A tie is accepted: a proposal that is not executed, meets the quorum and
/// has as much weight for it as against it is marked as executed, and its
/// payment is ordered if the treasury can afford it.
pub proof fn lemma_tie_is_accepted(state: GovernorState, proposal_id: u128, balance: u128)
    requires
        state.proposals.contains_key(proposal_id),
        !state.proposals[proposal_id].executed,
        state.tallies[proposal_id].total_votes() >= state.quorum,
        state.tallies[proposal_id].for_votes == state.tallies[proposal_id].against_votes,
    ensures
        state.verdict(proposal_id) is Ok,
        state.execute_result(proposal_id, balance) == payment_order(
            state.proposals[proposal_id].to,
            state.proposals[proposal_id].amount,
            balance,
        ),
        state.proposals[proposal_id].amount <= balance ==> state.execute_result(
            proposal_id,
            balance,
        ) == Ok::<Payment, GovernorError>(
            Payment {
                to: state.proposals[proposal_id].to,
                amount: state.proposals[proposal_id].amount,
            },
        ),
        state.after_execute(proposal_id).proposals[proposal_id].executed,
{
}

/// A payment of more than the treasury holds is never ordered, and one of
/// no more than it holds always is.
pub proof fn lemma_payment_needs_funds(to: AccountId, amount: u128, balance: u128)
    ensures
        amount > balance ==> payment_order(to, amount, balance) == Err::<Payment, GovernorError>(
            GovernorError::NotEnoughBalance,
        ),
        amount <= balance ==> payment_order(to, amount, balance) == Ok::<Payment, GovernorError>(
            Payment { to, amount },
        ),
{
}

/// A weight is a share in percent: an account that holds no more than the
/// total supply weighs at most 100, one that holds all of it weighs exactly
/// 100, and one that holds nothing weighs nothing. Of two balances, the
/// greater never weighs less.
pub proof fn lemma_weight_is_a_percentage(balance: u128, greater: u128, total_supply: u128)
    requires
        total_supply > 0,
        balance <= greater,
    ensures
        0 <= weight(balance, total_supply) <= weight(greater, total_supply),
        greater <= total_supply ==> weight(greater, total_supply) <= 100,
        weight(total_supply, total_supply) == 100,
        weight(0, total_supply) == 0,
{
    let supply = total_supply as int;
    vstd::arithmetic::div_mod::lemma_div_is_ordered(balance * 100, greater * 100, supply);
    vstd::arithmetic::div_mod::lemma_div_pos_is_pos(balance * 100, supply);
    vstd::arithmetic::div_mod::lemma_div_multiples_vanish(100, supply);
    assert(100 * supply == total_supply * 100) by (nonlinear_arith)
        requires
            supply == total_supply,
    ;
    if greater <= total_supply {
        vstd::arithmetic::div_mod::lemma_div_is_ordered(greater * 100, total_supply * 100, supply);
    }
}

} // verus!
