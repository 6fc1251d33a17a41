//! What holds of every run of the ledger, proved over its mathematical model.

use crate::account::{fits, AccountState, VoteStruct, MAX_BALLOTS};
use crate::instructions::ballot;
use anchor_lang::prelude::Pubkey;
use vstd::prelude::*;

verus! {

/// `MAX_BALLOTS` is exactly where the reserved space runs out: that many
/// ballots fit, and one more does not.
pub proof fn lemma_fits_iff_within_max(ballots: nat)
    ensures
        fits(ballots) <==> ballots <= MAX_BALLOTS as nat,
{
}

/// While the tally agrees with the ballot list it never wraps: a recorded
/// vote raises it by exactly one, and it agrees with the list afterwards.
pub proof fn lemma_consistent_tally_never_wraps(state: AccountState, vote: VoteStruct)
    requires
        state.consistent(),
        state.has_room(),
    ensures
        state.cast(vote).total_votes == state.total_votes + 1,
        state.cast(vote).consistent(),
{
}

/// The state reached from a new account after casting `votes` in order, one
/// call each, where a call that finds no room leaves the state untouched.
pub open spec fn replay(votes: Seq<VoteStruct>) -> AccountState
    decreases votes.len(),
{
    if votes.len() == 0 {
        AccountState::fresh()
    } else {
        replay(votes.drop_last()).cast(votes.last())
    }
}

/// Every one of the calls that cast `votes` in order found room.
pub open spec fn all_accepted(votes: Seq<VoteStruct>) -> bool {
    forall|k: int| 0 <= k < votes.len() ==> (#[trigger] replay(votes.take(k))).has_room()
}

/// How many of `n` calls in a row a new account accepts.
pub open spec fn accepted_count(n: nat) -> nat {
    if n <= MAX_BALLOTS as nat {
        n
    } else {
        MAX_BALLOTS as nat
    }
}

/// After any run of calls the account holds the first `MAX_BALLOTS` ballots
/// of the run at most, in the order of the calls, and the tally is their
/// number: nothing is lost, reordered or overwritten, full or not.
pub proof fn lemma_replay_keeps_accepted_prefix(votes: Seq<VoteStruct>)
    ensures
        replay(votes).votes == votes.take(accepted_count(votes.len()) as int),
        replay(votes).total_votes as nat == accepted_count(votes.len()),
        replay(votes).consistent(),
    decreases votes.len(),
{
    if votes.len() > 0 {
        let earlier = votes.drop_last();
        lemma_replay_keeps_accepted_prefix(earlier);
        let m = accepted_count(earlier.len()) as int;
        assert(earlier.take(m) == votes.take(m));
        if replay(earlier).has_room() {
            assert(votes.take(m).push(votes.last()) == votes.take(m + 1));
        }
    }
    assert(replay(votes).votes == votes.take(accepted_count(votes.len()) as int));
}

/// The calls of a run are all accepted exactly when the run is no longer than
/// `MAX_BALLOTS`.
pub proof fn lemma_all_accepted_iff_within_capacity(votes: Seq<VoteStruct>)
    ensures
        all_accepted(votes) <==> votes.len() <= MAX_BALLOTS as nat,
{
    if votes.len() <= MAX_BALLOTS as nat {
        assert forall|k: int| 0 <= k < votes.len() implies (#[trigger] replay(
            votes.take(k),
        )).has_room() by {
            lemma_replay_keeps_accepted_prefix(votes.take(k));
        }
    } else {
        let full = votes.take(MAX_BALLOTS as int);
        lemma_replay_keeps_accepted_prefix(full);
        assert(!replay(full).has_room());
    }
}

/// After `N` accepted calls the tally is `N`.
pub proof fn lemma_tally_counts_accepted_votes(votes: Seq<VoteStruct>)
    requires
        all_accepted(votes),
    ensures
        replay(votes).total_votes as nat == votes.len(),
{
    lemma_all_accepted_iff_within_capacity(votes);
    lemma_replay_keeps_accepted_prefix(votes);
}

/// After accepted calls the ballot list is as long as the tally says, and the
/// ballot of each call stands at the call's place in the run: that of the
/// first call at index 0, that of the next at index 1, and so on.
pub proof fn lemma_ballots_keep_call_order(votes: Seq<VoteStruct>)
    requires
        all_accepted(votes),
    ensures
        replay(votes).votes.len() == replay(votes).total_votes as nat,
        replay(votes).votes == votes,
        forall|i: int| 0 <= i < votes.len() ==> #[trigger] replay(votes).votes[i] == votes[i],
{
    lemma_all_accepted_iff_within_capacity(votes);
    lemma_replay_keeps_accepted_prefix(votes);
    assert(votes.take(votes.len() as int) == votes);
}

/// A selection is kept as given, whatever its value: acceptance depends on
/// room alone, and the recorded ballot carries the very selection and signer.
pub proof fn lemma_selection_kept_verbatim(state: AccountState, selection: u8, user: Pubkey)
    requires
        state.has_room(),
    ensures
        state.cast(ballot(selection, user)).votes.len() == state.votes.len() + 1,
        state.cast(ballot(selection, user)).votes.last().selection == selection,
        state.cast(ballot(selection, user)).votes.last().user_address == user,
        state.cast(ballot(selection, user)).votes.drop_last() == state.votes,
{
}

/// One signer may vote again: with room for two, both ballots of the same
/// signer are recorded, the earlier one first.
pub proof fn lemma_same_signer_may_vote_again(
    state: AccountState,
    first: u8,
    second: u8,
    user: Pubkey,
)
    requires
        fits(state.votes.len() + 2),
    ensures
        state.cast(ballot(first, user)).cast(ballot(second, user)).votes == state.votes.push(
            ballot(first, user),
        ).push(ballot(second, user)),
{
}

/// A full account turns every further vote away and stays as it is.
pub proof fn lemma_full_account_stays_unchanged(state: AccountState, vote: VoteStruct)
    requires
        state.votes.len() >= MAX_BALLOTS as nat,
    ensures
        !state.has_room(),
        state.cast(vote) == state,
{
}

} // verus!
