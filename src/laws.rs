//! Properties of the challenge lifecycle that hold across operations.
use vstd::prelude::*;

use crate::challenge::{
    claim_refund_step, claim_winner_step, count_vote, deposit_step, pay_fee_step, vote_step,
    ChallengeStatus, ChallengeView, NFTStatus,
};
use crate::error::CustomError;
use crate::pubkey::Pubkey;

verus! {

/// One operation on a challenge, with the caller's inputs.
#[derive(Clone, Copy, Debug)]
pub enum Op {
    PayFee { payer: Pubkey },
    Deposit { depositor: Pubkey },
    Vote { moderator: Pubkey, vote: u8 },
    ClaimWinner { claimer: Pubkey },
    ClaimRefund { claimer: Pubkey, destination_owner: Pubkey },
}

/// Outcome of `op` on `c`, with `moderators` the registry's trusted moderators.
pub open spec fn apply(c: ChallengeView, moderators: Seq<Pubkey>, op: Op) -> Result<
    ChallengeView,
    CustomError,
> {
    match op {
        Op::PayFee { payer } => pay_fee_step(c, payer),
        Op::Deposit { depositor } => deposit_step(c, depositor),
        Op::Vote { moderator, vote } => vote_step(c, moderators, moderator, vote),
        Op::ClaimWinner { claimer } => claim_winner_step(c, claimer),
        Op::ClaimRefund { claimer, destination_owner } => claim_refund_step(
            c,
            claimer,
            destination_owner,
        ),
    }
}

/// Position of a status in the lifecycle; the two terminal ones share the last.
pub open spec fn status_rank(s: ChallengeStatus) -> int {
    match s {
        ChallengeStatus::PendingFee => 0,
        ChallengeStatus::PendingEscrow => 1,
        ChallengeStatus::Ready => 2,
        ChallengeStatus::Completed => 3,
        ChallengeStatus::Cancelled => 3,
    }
}

/// `b` is `a` or comes after it, and a terminal status stays as it is.
pub open spec fn status_advances(a: ChallengeStatus, b: ChallengeStatus) -> bool {
    status_rank(a) <= status_rank(b) && (status_rank(a) == 3 ==> a == b)
}

/// `b` is `a` or one of the steps NotDeposited to Deposited, Deposited to
/// Claimed, Deposited to Refunded.
pub open spec fn asset_advances(a: NFTStatus, b: NFTStatus) -> bool {
    ||| a == b
    ||| a == NFTStatus::NotDeposited && b == NFTStatus::Deposited
    ||| a == NFTStatus::Deposited && b == NFTStatus::Claimed
    ||| a == NFTStatus::Deposited && b == NFTStatus::Refunded
}

/// Apply the votes in order, stopping at the first rejected one.
pub open spec fn run_votes(
    c: ChallengeView,
    moderators: Seq<Pubkey>,
    votes: Seq<(Pubkey, u8)>,
) -> Result<ChallengeView, CustomError>
    decreases votes.len(),
{
    if votes.len() == 0 {
        Ok(c)
    } else {
        match run_votes(c, moderators, votes.drop_last()) {
            Ok(n) => vote_step(n, moderators, votes.last().0, votes.last().1),
            Err(e) => Err(e),
        }
    }
}

/// Every operation keeps the invariant of a challenge.
pub proof fn lemma_wf_preserved(c: ChallengeView, moderators: Seq<Pubkey>, op: Op)
    requires
        c.wf(),
    ensures
        apply(c, moderators, op) matches Ok(n) ==> n.wf(),
{
    if let Op::Vote { moderator, vote } = op {
        if let Ok(n) = apply(c, moderators, op) {
            let m = count_vote(c, moderator, vote);
            assert forall|i: int, j: int|
                0 <= i < m.moderator_votes.len() && 0 <= j < m.moderator_votes.len() && i
                    != j implies m.moderator_votes[i] != m.moderator_votes[j] by {
                if i == c.moderator_votes.len() {
                    assert(m.moderator_votes[j] == c.moderator_votes[j]);
                } else if j == c.moderator_votes.len() {
                    assert(m.moderator_votes[i] == c.moderator_votes[i]);
                }
            }
        }
    }
}

/// No moderator is recorded twice as having voted on one challenge.
pub proof fn lemma_votes_stay_unique(c: ChallengeView, moderators: Seq<Pubkey>, op: Op)
    requires
        c.wf(),
    ensures
        apply(c, moderators, op) matches Ok(n) ==> n.moderator_votes.no_duplicates(),
{
    lemma_wf_preserved(c, moderators, op);
}

/// The status of a challenge only moves forward through PendingFee,
/// PendingEscrow, Ready and then Completed or Cancelled, and a settled
/// challenge keeps its status and its winner, whatever the operation.
pub proof fn lemma_status_never_regresses(c: ChallengeView, moderators: Seq<Pubkey>, op: Op)
    requires
        c.wf(),
    ensures
        apply(c, moderators, op) matches Ok(n) ==> {
            &&& status_advances(c.status, n.status)
            &&& status_rank(c.status) == 3 ==> n.winner == c.winner
        },
{
}

/// An asset slot only moves forward: NotDeposited, Deposited, then Claimed or
/// Refunded, each step at most once. A slot becomes Claimed only on a completed
/// challenge and Refunded only on a cancelled one.
pub proof fn lemma_asset_status_never_regresses(
    c: ChallengeView,
    moderators: Seq<Pubkey>,
    op: Op,
)
    requires
        c.wf(),
    ensures
        apply(c, moderators, op) matches Ok(n) ==> {
            &&& asset_advances(c.nft1_status, n.nft1_status)
            &&& asset_advances(c.nft2_status, n.nft2_status)
            &&& (n.nft1_status == NFTStatus::Claimed && c.nft1_status != NFTStatus::Claimed)
                ==> c.status == ChallengeStatus::Completed
            &&& (n.nft2_status == NFTStatus::Claimed && c.nft2_status != NFTStatus::Claimed)
                ==> c.status == ChallengeStatus::Completed
            &&& (n.nft1_status == NFTStatus::Refunded && c.nft1_status != NFTStatus::Refunded)
                ==> c.status == ChallengeStatus::Cancelled
            &&& (n.nft2_status == NFTStatus::Refunded && c.nft2_status != NFTStatus::Refunded)
                ==> c.status == ChallengeStatus::Cancelled
        },
{
}

/// The parts of a challenge that voting reads and writes.
pub open spec fn same_tally(a: ChallengeView, b: ChallengeView) -> bool {
    &&& a.p1 == b.p1
    &&& a.p2 == b.p2
    &&& a.status == b.status
    &&& a.winner == b.winner
    &&& a.cancelled == b.cancelled
    &&& a.moderator_votes == b.moderator_votes
    &&& a.votes_for_p1 == b.votes_for_p1
    &&& a.votes_for_p2 == b.votes_for_p2
    &&& a.votes_to_cancel == b.votes_to_cancel
}

/// Both runs are accepted and agree on the tally, or both stop at the same error.
pub open spec fn same_outcome(
    a: Result<ChallengeView, CustomError>,
    b: Result<ChallengeView, CustomError>,
) -> bool {
    match (a, b) {
        (Ok(x), Ok(y)) => same_tally(x, y),
        (Err(e), Err(f)) => e == f,
        _ => false,
    }
}

/// Resolution is deterministic: two challenges that agree on their tally,
/// given the same trusted moderators and the same ordered votes, end with the
/// same result, status, winner and tally.
pub proof fn lemma_resolution_deterministic(
    c1: ChallengeView,
    c2: ChallengeView,
    moderators: Seq<Pubkey>,
    votes: Seq<(Pubkey, u8)>,
)
    requires
        same_tally(c1, c2),
    ensures
        same_outcome(run_votes(c1, moderators, votes), run_votes(c2, moderators, votes)),
    decreases votes.len(),
{
    if votes.len() > 0 {
        lemma_resolution_deterministic(c1, c2, moderators, votes.drop_last());
    }
}

/// A fee that was just settled cannot be settled again.
pub proof fn lemma_second_payment_rejected(c: ChallengeView, payer: Pubkey)
    requires
        c.wf(),
        pay_fee_step(c, payer) is Ok,
    ensures
        pay_fee_step(pay_fee_step(c, payer)->Ok_0, payer) == Err::<ChallengeView, CustomError>(
            CustomError::FeeAlreadyPaid,
        ),
{
}

/// An asset that was just deposited cannot be deposited again.
pub proof fn lemma_second_deposit_rejected(c: ChallengeView, depositor: Pubkey)
    requires
        c.wf(),
        deposit_step(c, depositor) is Ok,
    ensures
        deposit_step(deposit_step(c, depositor)->Ok_0, depositor) == Err::<
            ChallengeView,
            CustomError,
        >(CustomError::AlreadyDeposited),
{
}

/// A moderator whose vote was just recorded cannot vote again, whatever the vote.
pub proof fn lemma_second_vote_rejected(
    c: ChallengeView,
    moderators: Seq<Pubkey>,
    moderator: Pubkey,
    vote: u8,
    again: u8,
)
    requires
        c.wf(),
        vote_step(c, moderators, moderator, vote) is Ok,
    ensures
        vote_step(vote_step(c, moderators, moderator, vote)->Ok_0, moderators, moderator, again)
            == Err::<ChallengeView, CustomError>(CustomError::AlreadyVoted),
{
    let n = vote_step(c, moderators, moderator, vote)->Ok_0;
    assert(n.moderator_votes.last() == moderator);
    assert(n.moderator_votes.contains(moderator));
}

} // verus!
