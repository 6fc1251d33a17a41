//! The compact layout of the ledger: an account that keeps the tally alone.
//!
//! Its stored form has a fixed size, so a vote is never turned away.

use crate::account::next_tally;
use vstd::prelude::*;

verus! {

/// A ledger account that counts votes without keeping the ballots.
#[derive(Debug, Clone, Copy, PartialEq, Eq)]
pub struct TallyAccount {
    /// Number of votes recorded so far.
    pub total_votes: u64,
}

impl TallyAccount {
    /// An account as it is right after creation.
    pub fn new() -> (account: TallyAccount)
        ensures
            account.total_votes == 0,
    {
        TallyAccount { total_votes: 0 }
    }

    /// Sets the tally to zero.
    pub fn initialize(&mut self)
        ensures
            final(self).total_votes == 0,
    {
        self.total_votes = 0;
    }

    /// Counts one vote: the tally goes up by one, wrapping to zero past
    /// `u64::MAX`.
    pub fn add_vote(&mut self)
        ensures
            final(self).total_votes == next_tally(old(self).total_votes),
    {
        self.total_votes = self.total_votes.wrapping_add(1);
    }
}

/// The tally of a new account after `calls` votes.
pub open spec fn tally_after(calls: nat) -> u64
    decreases calls,
{
    if calls == 0 {
        0u64
    } else {
        next_tally(tally_after((calls - 1) as nat))
    }
}

/// After `N` votes on a new account the tally is `N`, for every `N` that a
/// `u64` can hold.
pub proof fn lemma_tally_counts_calls(calls: nat)
    requires
        calls <= u64::MAX as nat,
    ensures
        tally_after(calls) as nat == calls,
    decreases calls,
{
    if calls > 0 {
        lemma_tally_counts_calls((calls - 1) as nat);
    }
}

} // verus!
