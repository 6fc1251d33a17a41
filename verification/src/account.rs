//! The persisted account, its ballots, and the size of its stored form.

use anchor_lang::prelude::Pubkey;
use vstd::prelude::*;

verus! {

/// The public key type of `solana_program` (re-exported by `anchor_lang`).
/// It is carried through unopened: nothing is assumed about what a key holds.
#[verifier::external_type_specification]
#[verifier::external_body]
pub struct ExPubkey(Pubkey);

/// Bytes reserved for the account when it is created.
pub const ACCOUNT_SPACE: usize = 9000;

/// Bytes of the type tag that opens every stored account.
pub const DISCRIMINATOR_LEN: usize = 8;

/// Bytes of the stored tally.
pub const TALLY_LEN: usize = 8;

/// Bytes of the ballot count that precedes the stored ballots.
pub const LENGTH_PREFIX_LEN: usize = 4;

/// Bytes of one stored ballot: the selection, then the 32-byte key.
pub const BALLOT_LEN: usize = 33;

/// The largest number of ballots whose stored form fits in `ACCOUNT_SPACE`.
pub const MAX_BALLOTS: usize = 272;

/// Bytes that an account with `ballots` ballots occupies once stored.
pub open spec fn stored_len(ballots: nat) -> nat {
    DISCRIMINATOR_LEN as nat + TALLY_LEN as nat + LENGTH_PREFIX_LEN as nat + BALLOT_LEN as nat
        * ballots
}

/// Whether an account with `ballots` ballots fits in the reserved space.
pub open spec fn fits(ballots: nat) -> bool {
    stored_len(ballots) <= ACCOUNT_SPACE as nat
}

/// The tally after one more vote: one higher, wrapping to zero past `u64::MAX`.
pub open spec fn next_tally(tally: u64) -> u64 {
    if tally == u64::MAX {
        0u64
    } else {
        (tally + 1) as u64
    }
}

/// One recorded vote.
#[derive(Debug, Clone, Copy, PartialEq, Eq)]
pub struct VoteStruct {
    /// The choice, kept exactly as submitted.
    pub selection: u8,
    /// The key that signed the vote.
    pub user_address: Pubkey,
}

/// Why a vote was turned away.
#[derive(Debug, Clone, Copy, PartialEq, Eq, Structural)]
pub enum VoteError {
    /// One more ballot would not fit in the space reserved for the account.
    CapacityExceeded,
}

/// The stored state of the ledger.
#[derive(Debug, Clone)]
pub struct BaseAccount {
    /// Number of votes recorded so far.
    pub total_votes: u64,
    /// The ballots, oldest first.
    pub votes: Vec<VoteStruct>,
}

/// The mathematical value of a `BaseAccount`.
pub struct AccountState {
    pub total_votes: u64,
    pub votes: Seq<VoteStruct>,
}

impl AccountState {
    /// The state of a newly created account: no votes, no ballots.
    pub open spec fn fresh() -> AccountState {
        AccountState { total_votes: 0, votes: Seq::empty() }
    }

    /// Whether one more ballot still fits in the reserved space.
    pub open spec fn has_room(self) -> bool {
        fits(self.votes.len() + 1)
    }

    /// The state with `vote` appended and the tally advanced.
    pub open spec fn with_vote(self, vote: VoteStruct) -> AccountState {
        AccountState { total_votes: next_tally(self.total_votes), votes: self.votes.push(vote) }
    }

    /// What casting `vote` leaves behind: the vote is recorded when there is
    /// room, and the state is untouched when there is not.
    pub open spec fn cast(self, vote: VoteStruct) -> AccountState {
        if self.has_room() {
            self.with_vote(vote)
        } else {
            self
        }
    }

    /// The tally agrees with the ballot list, and the list fits in the
    /// reserved space.
    pub open spec fn consistent(self) -> bool {
        &&& self.total_votes as nat == self.votes.len()
        &&& fits(self.votes.len())
    }
}

impl View for BaseAccount {
    type V = AccountState;

    open spec fn view(&self) -> AccountState {
        AccountState { total_votes: self.total_votes, votes: self.votes@ }
    }
}

impl BaseAccount {
    /// An account as it is right after creation.
    pub fn new() -> (account: BaseAccount)
        ensures
            account@ == AccountState::fresh(),
            account@.consistent(),
    {
        BaseAccount { total_votes: 0, votes: Vec::new() }
    }

    /// Whether the account can take one more ballot.
    pub fn has_room(&self) -> (room: bool)
        ensures
            room == self@.has_room(),
    {
        self.votes.len() < MAX_BALLOTS
    }

    /// Appends `vote` and advances the tally, or turns the vote away and
    /// leaves the account as it was when the ballot would not fit.
    pub fn record(&mut self, vote: VoteStruct) -> (result: Result<(), VoteError>)
        ensures
            result is Ok <==> old(self)@.has_room(),
            result is Ok ==> final(self)@ == old(self)@.with_vote(vote),
            result is Err ==> result == Err::<(), VoteError>(VoteError::CapacityExceeded)
                && *final(self) == *old(self),
            old(self)@.consistent() ==> final(self)@.consistent(),
    {
        if !self.has_room() {
            return Err(VoteError::CapacityExceeded);
        }
        self.votes.push(vote);
        self.total_votes = self.total_votes.wrapping_add(1);
        Ok(())
    }
}

} // verus!
