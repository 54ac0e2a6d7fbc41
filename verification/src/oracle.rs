//! Questions to the governance token's contract, and what its answers are
//! worth.
//!
//! The engine does not call the token contract. It says what is to be asked
//! ([`OracleRequest`]), the host asks, and the engine judges the reply
//! ([`OracleReply`]). A voter's weight is computed afresh from two such
//! replies at every vote; nothing is remembered between votes.

use vstd::prelude::*;
use crate::account::AccountId;
use crate::records::GovernorError;

verus! {

/// The gas the host is to allow for one question to the token contract.
pub const ORACLE_GAS_LIMIT: u64 = 5_000_000_000;

/// What can be asked of the token contract.
#[derive(Clone, Copy, Debug, PartialEq, Eq)]
pub enum OracleQuery {
    /// `PSP22::balance_of` for the given account.
    BalanceOf(AccountId),
    /// `PSP22::total_supply`.
    TotalSupply,
}

/// One question, with the contract it goes to and the gas it may use.
#[derive(Clone, Copy, Debug, PartialEq, Eq)]
pub struct OracleRequest {
    pub token: AccountId,
    pub gas_limit: u64,
    pub query: OracleQuery,
}

/// What came back from one question.
#[derive(Clone, Copy, Debug, PartialEq, Eq)]
pub enum OracleReply {
    /// The contract answered with this amount.
    Amount(u128),
    /// The call itself failed: the contract could not be reached, ran out of
    /// gas or trapped, or its answer could not be read.
    CallError,
    /// The call went through and the contract reported a failure of its own.
    ApplicationFailure,
}

impl OracleReply {
    /// The amount a reply carries. Both ways in which a question can fail
    /// look the same from here on.
    pub open spec fn reading(self) -> Result<u128, GovernorError> {
        match self {
            OracleReply::Amount(amount) => Ok(amount),
            OracleReply::CallError => Err(GovernorError::TransactionFailed),
            OracleReply::ApplicationFailure => Err(GovernorError::TransactionFailed),
        }
    }

    /// The amount this reply carries, or `TransactionFailed` if the question
    /// failed in either way.
    pub fn into_amount(self) -> (amount: Result<u128, GovernorError>)
        ensures
            amount == self.reading(),
    {
        match self {
            OracleReply::Amount(amount) => Ok(amount),
            OracleReply::CallError => Err(GovernorError::TransactionFailed),
            OracleReply::ApplicationFailure => Err(GovernorError::TransactionFailed),
        }
    }
}

/// The share of `total_supply` that `balance` makes up, in whole percent,
/// rounded down.
pub open spec fn weight(balance: u128, total_supply: u128) -> int
    recommends
        total_supply > 0,
{
    (balance * 100) / (total_supply as int)
}

/// The weight that two replies give a voter.
///
/// A failed question gives none, whichever of the two it was. Neither does a
/// total supply of zero: no balance is a share of nothing, so such an answer
/// counts as a failed one.
pub open spec fn weighing(balance: OracleReply, total_supply: OracleReply) -> Result<
    u128,
    GovernorError,
> {
    match (balance, total_supply) {
        (OracleReply::Amount(held), OracleReply::Amount(supply)) => if supply == 0 {
            Err(GovernorError::TransactionFailed)
        } else {
            Ok(weight(held, supply) as u128)
        },
        _ => Err(GovernorError::TransactionFailed),
    }
}

/// Whether the weight that two replies give can be computed in 128 bits.
/// Replies that give no weight are always fine.
pub open spec fn weighable(balance: OracleReply, total_supply: OracleReply) -> bool {
    match (balance, total_supply) {
        (OracleReply::Amount(held), OracleReply::Amount(supply)) => supply > 0 ==> held * 100
            <= u128::MAX,
        _ => true,
    }
}

/// The share of `total_supply` that `balance` makes up, in whole percent,
/// rounded down. A balance above the supply weighs more than 100.
pub fn vote_weight(balance: u128, total_supply: u128) -> (percent: u128)
    requires
        total_supply > 0,
        balance * 100 <= u128::MAX,
    ensures
        percent == weight(balance, total_supply),
        percent * total_supply <= balance * 100 < (percent + 1) * total_supply,
{
    let percent: u128 = (balance * 100) / total_supply;
    proof {
        vstd::arithmetic::div_mod::lemma_fundamental_div_mod(
            balance * 100,
            total_supply as int,
        );
        vstd::arithmetic::div_mod::lemma_mod_bound(balance * 100, total_supply as int);
        assert(total_supply * percent == percent * total_supply) by (nonlinear_arith);
        assert((percent + 1) * total_supply == percent * total_supply + total_supply)
            by (nonlinear_arith);
    }
    percent
}

/// The weight of a voter whose balance and whose token's total supply came
/// back as `balance` and `total_supply`.
///
/// Fails with `TransactionFailed` exactly when one of the two questions
/// failed or the total supply is zero.
pub fn get_vote_weight(balance: OracleReply, total_supply: OracleReply) -> (result: Result<
    u128,
    GovernorError,
>)
    requires
        weighable(balance, total_supply),
    ensures
        result == weighing(balance, total_supply),
        result is Err ==> result == Err::<u128, GovernorError>(GovernorError::TransactionFailed),
        result is Ok <==> (balance matches OracleReply::Amount(_)
            && total_supply matches OracleReply::Amount(supply) && supply > 0),
{
    let held: u128 = match balance.into_amount() {
        Ok(amount) => amount,
        Err(error) => {
            return Err(error);
        },
    };
    let supply: u128 = match total_supply.into_amount() {
        Ok(amount) => amount,
        Err(error) => {
            return Err(error);
        },
    };
    if supply == 0 {
        return Err(GovernorError::TransactionFailed);
    }
    Ok(vote_weight(held, supply))
}

} // verus!
