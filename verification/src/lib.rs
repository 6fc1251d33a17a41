//! A vote ledger for an on-chain program: one account that keeps a running
//! tally and the list of ballots cast, plus the two instruction handlers that
//! create it and append to it.
//!
//! Everything here is a pure state transition on plain values. The host
//! runtime owns loading, signature checks and persistence; this crate owns the
//! rules, and states them as contracts.

pub mod account;
pub mod instructions;
pub mod laws;
pub mod tally;

pub use account::{AccountState, BaseAccount, VoteError, VoteStruct};
pub use instructions::{add_vote, initialize, AddVote, Initialize};
pub use tally::TallyAccount;

