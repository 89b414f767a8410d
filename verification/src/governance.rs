//! Proposals and the tally of the weighted votes cast for them.

use vstd::prelude::*;
use anchor_lang::prelude::Pubkey;
use crate::error::SettlementError;

verus! {

/// A proposal and the weight of the votes cast for it.
#[derive(Debug, PartialEq, Eq)]
pub struct Proposal {
    /// What is proposed.
    pub description: String,
    /// The sum of the weights of all votes so far.
    pub votes: u64,
    /// The identity that made the proposal.
    pub proposer: Pubkey,
}

/// Everything the making of a proposal reads and writes.
#[derive(Debug, PartialEq, Eq)]
pub struct Propose {
    /// The record that the proposal fills.
    pub proposal: Proposal,
    /// The identity that proposes.
    pub user: Pubkey,
}

/// Everything one vote reads and writes.
#[derive(Debug, PartialEq, Eq)]
pub struct Vote {
    /// The proposal voted for.
    pub proposal: Proposal,
    /// The identity that votes.
    pub user: Pubkey,
}

/// The record after `proposal` was made by the caller, or `InvalidArgument`
/// where the description is empty.
pub open spec fn propose_outcome(ctx: Propose, proposal: String) -> Result<
    Propose,
    SettlementError,
> {
    if proposal@.len() == 0 {
        Err(SettlementError::InvalidArgument)
    } else {
        Ok(
            (Propose {
                proposal: Proposal { description: proposal, votes: 0, proposer: ctx.user },
                user: ctx.user,
            }),
        )
    }
}

/// Fills the record with a new proposal that has no votes yet and names the
/// caller as its proposer. A description must say something: the empty one is
/// refused, any other is accepted whatever its length. A refused proposal
/// changes nothing.
pub fn propose(ctx: &mut Propose, proposal: String) -> (result: Result<(), SettlementError>)
    ensures
        match propose_outcome(*old(ctx), proposal) {
            Ok(after) => result is Ok && *final(ctx) == after,
            Err(e) => result == Err::<(), SettlementError>(e) && *final(ctx) == *old(ctx),
        },
        result is Ok ==> final(ctx).proposal.votes == 0,
{
    if proposal.as_str().is_empty() {
        return Err(SettlementError::InvalidArgument);
    }
    ctx.proposal.description = proposal;
    ctx.proposal.votes = 0;
    ctx.proposal.proposer = ctx.user;
    Ok(())
}

/// The proposal after a vote of weight `vote_weight`, or `Overflow` where the
/// tally would leave 64 bits.
pub open spec fn vote_outcome(proposal: Proposal, vote_weight: u64) -> Result<
    Proposal,
    SettlementError,
> {
    if proposal.votes + vote_weight > u64::MAX {
        Err(SettlementError::Overflow)
    } else {
        Ok(
            (Proposal {
                description: proposal.description,
                votes: (proposal.votes + vote_weight) as u64,
                proposer: proposal.proposer,
            }),
        )
    }
}

/// Adds `vote_weight` to the tally of the proposal. The weight is taken as
/// given: it is not held against any balance of the voter. A refused vote
/// changes nothing.
pub fn vote(ctx: &mut Vote, vote_weight: u64) -> (result: Result<(), SettlementError>)
    ensures
        match vote_outcome(old(ctx).proposal, vote_weight) {
            Ok(after) => result is Ok && final(ctx).proposal == after,
            Err(e) => result == Err::<(), SettlementError>(e) && final(ctx).proposal == old(
                ctx,
            ).proposal,
        },
        final(ctx).user == old(ctx).user,
        final(ctx).proposal.votes >= old(ctx).proposal.votes,
        final(ctx).proposal.proposer == old(ctx).proposal.proposer,
        final(ctx).proposal.description == old(ctx).proposal.description,
{
    match ctx.proposal.votes.checked_add(vote_weight) {
        Some(tally) => {
            ctx.proposal.votes = tally;
            Ok(())
        },
        None => Err(SettlementError::Overflow),
    }
}

/// Votes add up: after two votes the tally has grown by the sum of the two
/// weights, and the proposal is otherwise what it was.
pub proof fn lemma_votes_accumulate(proposal: Proposal, first: u64, second: u64)
    ensures
        vote_outcome(proposal, first) is Ok && vote_outcome(
            vote_outcome(proposal, first)->Ok_0,
            second,
        ) is Ok <==> proposal.votes + first + second <= u64::MAX,
        proposal.votes + first + second <= u64::MAX ==> vote_outcome(
            vote_outcome(proposal, first)->Ok_0,
            second,
        ) == Ok::<Proposal, SettlementError>(
            (Proposal {
                description: proposal.description,
                votes: (proposal.votes + first + second) as u64,
                proposer: proposal.proposer,
            }),
        ),
{
}

/// A fresh proposal has no votes, so the tally after any votes on it is the
/// sum of their weights alone.
pub proof fn lemma_fresh_proposal_counts_from_zero(
    ctx: Propose,
    proposal: String,
    first: u64,
    second: u64,
)
    requires
        proposal@.len() > 0,
        first + second <= u64::MAX,
    ensures
        propose_outcome(ctx, proposal) is Ok,
        propose_outcome(ctx, proposal)->Ok_0.proposal.votes == 0,
        vote_outcome(
            vote_outcome(propose_outcome(ctx, proposal)->Ok_0.proposal, first)->Ok_0,
            second,
        ) is Ok,
        vote_outcome(
            vote_outcome(propose_outcome(ctx, proposal)->Ok_0.proposal, first)->Ok_0,
            second,
        )->Ok_0.votes == first + second,
{
}

} // verus!
