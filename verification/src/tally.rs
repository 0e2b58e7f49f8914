//! The relation between a proposal's tallies and its recorded votes.
//!
//! A proposal never re-scans its voters: [`crate::govern::set_vote`] removes
//! the voter's previous contribution and adds the new one. This module gives
//! that bookkeeping its meaning: it defines the sum of the recorded vote
//! weights per side and proves that a successful `set_vote` keeps every
//! per-side tally equal to that sum, so no weight is ever double-counted or
//! dropped across a side change.

use vstd::prelude::*;

use crate::govern::{
    add_ok, after_add, after_sub, contribution, sub_ok, tally_get, valid_side, Proposal, Vote,
};

verus! {

/// The sum of the weights of the votes in `votes` recorded on side `s`.
pub open spec fn votes_weight_sum(votes: Seq<Vote>, s: u8) -> int
    decreases votes.len(),
{
    if votes.len() == 0 {
        0
    } else {
        votes_weight_sum(votes.drop_last(), s) + contribution(
            votes.last().side,
            votes.last().weight,
            s,
        )
    }
}

/// Whether each of `p`'s per-side tallies equals the sum of the weights of
/// the votes currently recorded on that side.
pub open spec fn tallies_match(p: Proposal, votes: Seq<Vote>) -> bool {
    &&& p.against_votes == votes_weight_sum(votes, 1)
    &&& p.for_votes == votes_weight_sum(votes, 2)
    &&& p.abstain_votes == votes_weight_sum(votes, 3)
}

/// Replacing one vote record changes the per-side sum by exactly the
/// difference of the old and new contributions.
pub proof fn lemma_sum_update(votes: Seq<Vote>, i: int, nv: Vote, s: u8)
    requires
        0 <= i < votes.len(),
    ensures
        votes_weight_sum(votes.update(i, nv), s) == votes_weight_sum(votes, s) - contribution(
            votes[i].side,
            votes[i].weight,
            s,
        ) + contribution(nv.side, nv.weight, s),
    decreases votes.len(),
{
    let updated = votes.update(i, nv);
    if i == votes.len() - 1 {
        assert(updated.drop_last() =~= votes.drop_last());
    } else {
        assert(updated.drop_last() =~= votes.drop_last().update(i, nv));
        lemma_sum_update(votes.drop_last(), i, nv, s);
    }
}

/// Law: for every sequence of `set_vote` calls on one proposal, each
/// per-side tally stays equal to the sum of the weights of the votes
/// currently recorded on that side.
///
/// One step is stated here: if the tallies match the recorded votes and a
/// `set_vote` succeeds for the voter at position `i` — producing exactly the
/// proposal and vote record that `set_vote` ensures — then the tallies match
/// the updated records again.
pub proof fn lemma_set_vote_preserves_tally_consistency(
    p: Proposal,
    votes: Seq<Vote>,
    i: int,
    side: u8,
    weight: u64,
)
    requires
        tallies_match(p, votes),
        0 <= i < votes.len(),
        valid_side(votes[i].side),
        valid_side(side),
        sub_ok(p, votes[i].side, votes[i].weight),
        add_ok(after_sub(p, votes[i].side, votes[i].weight), side, weight),
    ensures
        tallies_match(
            after_add(after_sub(p, votes[i].side, votes[i].weight), side, weight),
            votes.update(i, (Vote { side, weight, ..votes[i] })),
        ),
{
    let nv = Vote { side, weight, ..votes[i] };
    lemma_sum_update(votes, i, nv, 1);
    lemma_sum_update(votes, i, nv, 2);
    lemma_sum_update(votes, i, nv, 3);
}

/// Every per-side sum is non-negative, and bounded below by any one
/// recorded contribution.
pub proof fn lemma_sum_bounds_element(votes: Seq<Vote>, i: int, s: u8)
    requires
        0 <= i < votes.len(),
    ensures
        votes_weight_sum(votes, s) >= contribution(votes[i].side, votes[i].weight, s),
    decreases votes.len(),
{
    lemma_sum_nonnegative(votes.drop_last(), s);
    if i < votes.len() - 1 {
        lemma_sum_bounds_element(votes.drop_last(), i, s);
        assert(contribution(votes.last().side, votes.last().weight, s) >= 0);
    }
}

/// A vote sequence keeps every per-side sum non-negative.
pub proof fn lemma_sum_nonnegative(votes: Seq<Vote>, s: u8)
    ensures
        votes_weight_sum(votes, s) >= 0,
    decreases votes.len(),
{
    if votes.len() > 0 {
        lemma_sum_nonnegative(votes.drop_last(), s);
    }
}

/// In a consistent state the tally of a voter's current side always covers
/// that voter's recorded weight, so `set_vote` can never fail by underflow
/// when removing an honestly recorded contribution.
pub proof fn lemma_consistent_tallies_cover_votes(p: Proposal, votes: Seq<Vote>, i: int)
    requires
        tallies_match(p, votes),
        0 <= i < votes.len(),
        valid_side(votes[i].side),
    ensures
        sub_ok(p, votes[i].side, votes[i].weight),
{
    lemma_sum_bounds_element(votes, i, votes[i].side);
}

/// A fresh draft proposal is consistent with having no recorded votes:
/// the induction base for tally consistency over a proposal's lifetime.
pub proof fn lemma_fresh_proposal_consistent(p: Proposal)
    requires
        p.for_votes == 0,
        p.against_votes == 0,
        p.abstain_votes == 0,
    ensures
        tallies_match(p, Seq::<Vote>::empty()),
{
}

} // verus!
