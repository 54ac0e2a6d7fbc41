//! A token-weighted governance engine.
//!
//! Holders of a governance token propose transfers out of the engine's
//! treasury, vote on them with a weight proportional to their holdings, and
//! execute the proposals that reach quorum and win a majority.
//!
//! The engine is a deterministic state machine. Everything it learns from its
//! surroundings (the caller, the clock, the token contract's answers, the
//! treasury balance) is handed to it as a plain value, and everything it wants
//! done outside (a question to the token contract, a payment) is handed back as
//! a plain value for the host to carry out.

pub mod account;
pub mod governor;
pub mod history;
pub mod laws;
pub mod oracle;
pub mod records;
pub mod snapshot;
pub mod state;
pub mod treasury;

pub use account::AccountId;
pub use governor::{Ballot, Governor};
pub use oracle::{
    get_vote_weight, vote_weight, OracleQuery, OracleReply, OracleRequest, ORACLE_GAS_LIMIT,
};
pub use records::{GovernorError, Proposal, ProposalVote, VoteType, ONE_MINUTE};
pub use snapshot::Snapshot;
pub use state::GovernorState;
pub use treasury::Payment;
