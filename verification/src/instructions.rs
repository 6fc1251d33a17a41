//! The two instruction handlers and the accounts each one is handed.

use crate::account::{AccountState, BaseAccount, VoteError, VoteStruct};
use anchor_lang::prelude::Pubkey;
use vstd::prelude::*;

verus! {

/// The accounts of the `initialize` instruction.
pub struct Initialize {
    /// The account being created.
    pub base_account: BaseAccount,
    /// The key that signed the transaction and pays for the account.
    pub user: Pubkey,
}

/// The accounts of the `add_vote` instruction.
pub struct AddVote {
    /// The account that collects the ballots.
    pub base_account: BaseAccount,
    /// The key that signed the transaction: the voter.
    pub user: Pubkey,
}

/// The ballot that `user` casts for `selection`.
pub open spec fn ballot(selection: u8, user: Pubkey) -> VoteStruct {
    VoteStruct { selection, user_address: user }
}

/// Sets the account to its starting state: a tally of zero and no ballots.
/// Never fails.
pub fn initialize(ctx: &mut Initialize) -> (result: Result<(), VoteError>)
    ensures
        result is Ok,
        final(ctx).base_account@ == AccountState::fresh(),
        final(ctx).base_account@.consistent(),
        final(ctx).user == old(ctx).user,
{
    ctx.base_account.total_votes = 0;
    ctx.base_account.votes.clear();
    Ok(())
}

/// Records one vote by the signer: appends the ballot `{selection, user}` and
/// advances the tally. Any `selection` is taken as it is, and a signer may
/// vote any number of times. The only refusal is for want of space, and then
/// the account is left exactly as it was.
pub fn add_vote(ctx: &mut AddVote, selection: u8) -> (result: Result<(), VoteError>)
    ensures
        final(ctx).user == old(ctx).user,
        result is Ok <==> old(ctx).base_account@.has_room(),
        result is Ok ==> final(ctx).base_account@ == old(ctx).base_account@.with_vote(
            ballot(selection, old(ctx).user),
        ),
        result is Err ==> result == Err::<(), VoteError>(VoteError::CapacityExceeded)
            && final(ctx).base_account == old(ctx).base_account,
        final(ctx).base_account@ == old(ctx).base_account@.cast(ballot(selection, old(ctx).user)),
        old(ctx).base_account@.consistent() ==> final(ctx).base_account@.consistent(),
{
    let vote = VoteStruct { selection, user_address: ctx.user };
    ctx.base_account.record(vote)
}

} // verus!
