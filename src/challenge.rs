use vstd::prelude::*;

use crate::config::Config;
use crate::error::CustomError;
use crate::pubkey::Pubkey;

verus! {

/// Vote code for party one.
pub const VOTE_FOR_P1: u8 = 1;

/// Vote code for party two.
pub const VOTE_FOR_P2: u8 = 2;

/// Vote code for cancelling the challenge.
pub const VOTE_CANCEL: u8 = 3;

/// Number of identical votes that settles a challenge.
pub const RESOLUTION_THRESHOLD: u8 = 3;

/// Where a challenge stands as a whole.
#[derive(Clone, Copy, Debug, PartialEq, Eq, Structural)]
pub enum ChallengeStatus {
    PendingFee,
    PendingEscrow,
    Ready,
    Completed,
    Cancelled,
}

/// Where one pledged asset stands.
#[derive(Clone, Copy, Debug, PartialEq, Eq, Structural)]
pub enum NFTStatus {
    NotDeposited,
    Deposited,
    Claimed,
    Refunded,
}

/// A fee payment that the caller must carry out together with the state change.
#[derive(Clone, Copy, Debug, PartialEq, Eq)]
pub struct FeeTransfer {
    pub from: Pubkey,
    pub to: Pubkey,
    pub lamports: u64,
}

/// A move of one unit of an asset that the caller must carry out together with
/// the state change. Each asset of a challenge has a custody slot of its own.
#[derive(Clone, Copy, Debug, PartialEq, Eq)]
pub enum AssetTransfer {
    /// From `owner`'s account into the challenge's slot for `mint`, authorised by `owner`.
    IntoEscrow { mint: Pubkey, owner: Pubkey },
    /// From the challenge's slot for `mint` to `recipient`, authorised by the challenge itself.
    OutOfEscrow { mint: Pubkey, recipient: Pubkey },
}

/// One escrow challenge between two parties.
#[derive(Clone, Debug)]
pub struct Challenge {
    pub p1: Pubkey,
    pub p2: Pubkey,
    pub challenge_id: u64,
    pub p1_fee: u64,
    pub p2_fee: u64,
    pub p1_paid: bool,
    pub p2_paid: bool,
    pub nft1_mint: Pubkey,
    pub nft2_mint: Pubkey,
    pub nft1_status: NFTStatus,
    pub nft2_status: NFTStatus,
    pub status: ChallengeStatus,
    pub winner: Option<Pubkey>,
    pub cancelled: bool,
    pub moderator_votes: Vec<Pubkey>,
    pub votes_for_p1: u8,
    pub votes_for_p2: u8,
    pub votes_to_cancel: u8,
}

/// The mathematical model of a challenge.
pub struct ChallengeView {
    pub p1: Pubkey,
    pub p2: Pubkey,
    pub challenge_id: u64,
    pub p1_fee: u64,
    pub p2_fee: u64,
    pub p1_paid: bool,
    pub p2_paid: bool,
    pub nft1_mint: Pubkey,
    pub nft2_mint: Pubkey,
    pub nft1_status: NFTStatus,
    pub nft2_status: NFTStatus,
    pub status: ChallengeStatus,
    pub winner: Option<Pubkey>,
    pub cancelled: bool,
    pub moderator_votes: Seq<Pubkey>,
    pub votes_for_p1: nat,
    pub votes_for_p2: nat,
    pub votes_to_cancel: nat,
}

impl View for Challenge {
    type V = ChallengeView;

    open spec fn view(&self) -> ChallengeView {
        ChallengeView {
            p1: self.p1,
            p2: self.p2,
            challenge_id: self.challenge_id,
            p1_fee: self.p1_fee,
            p2_fee: self.p2_fee,
            p1_paid: self.p1_paid,
            p2_paid: self.p2_paid,
            nft1_mint: self.nft1_mint,
            nft2_mint: self.nft2_mint,
            nft1_status: self.nft1_status,
            nft2_status: self.nft2_status,
            status: self.status,
            winner: self.winner,
            cancelled: self.cancelled,
            moderator_votes: self.moderator_votes@,
            votes_for_p1: self.votes_for_p1 as nat,
            votes_for_p2: self.votes_for_p2 as nat,
            votes_to_cancel: self.votes_to_cancel as nat,
        }
    }
}

impl ChallengeView {
    /// The invariant that every operation keeps.
    pub open spec fn wf(&self) -> bool {
        &&& self.moderator_votes.no_duplicates()
        &&& self.votes_for_p1 + self.votes_for_p2 + self.votes_to_cancel
            == self.moderator_votes.len()
        &&& self.status == ChallengeStatus::Ready ==> self.both_pledged()
        &&& (self.votes_for_p1 > 0 || self.votes_for_p2 > 0) ==> self.both_pledged()
        &&& self.status == ChallengeStatus::Completed ==> (self.votes_for_p1
            >= RESOLUTION_THRESHOLD || self.votes_for_p2 >= RESOLUTION_THRESHOLD)
        &&& self.winner is Some <==> self.status == ChallengeStatus::Completed
        &&& self.status == ChallengeStatus::Completed ==> self.winner == Some(
            if self.votes_for_p1 >= RESOLUTION_THRESHOLD {
                self.p1
            } else {
                self.p2
            },
        )
        &&& self.cancelled <==> self.status == ChallengeStatus::Cancelled
        &&& self.status == ChallengeStatus::Cancelled ==> {
            &&& self.votes_for_p1 < RESOLUTION_THRESHOLD
            &&& self.votes_for_p2 < RESOLUTION_THRESHOLD
            &&& self.votes_to_cancel >= RESOLUTION_THRESHOLD
        }
    }

    /// Both assets have been handed over at some point.
    pub open spec fn both_pledged(&self) -> bool {
        self.nft1_status != NFTStatus::NotDeposited && self.nft2_status != NFTStatus::NotDeposited
    }
}

impl Challenge {
    pub open spec fn wf(&self) -> bool {
        self@.wf()
    }

    /// Checks the invariant of a challenge read back from storage.
    pub fn is_well_formed(&self) -> (r: bool)
        ensures
            r == self.wf(),
    {
        let total: u64 = self.votes_for_p1 as u64 + self.votes_for_p2 as u64
            + self.votes_to_cancel as u64;
        if total != self.moderator_votes.len() as u64 {
            return false;
        }
        if !crate::config::has_unique_keys(&self.moderator_votes) {
            return false;
        }
        let pledged = self.nft1_status != NFTStatus::NotDeposited && self.nft2_status
            != NFTStatus::NotDeposited;
        if self.status == ChallengeStatus::Ready && !pledged {
            return false;
        }
        if (self.votes_for_p1 > 0 || self.votes_for_p2 > 0) && !pledged {
            return false;
        }
        if self.status == ChallengeStatus::Completed && !(self.votes_for_p1 >= RESOLUTION_THRESHOLD
            || self.votes_for_p2 >= RESOLUTION_THRESHOLD) {
            return false;
        }
        if self.status == ChallengeStatus::Cancelled && !(self.votes_for_p1 < RESOLUTION_THRESHOLD
            && self.votes_for_p2 < RESOLUTION_THRESHOLD && self.votes_to_cancel
            >= RESOLUTION_THRESHOLD) {
            return false;
        }
        let settled = self.status == ChallengeStatus::Completed;
        match &self.winner {
            Some(w) => {
                if !settled {
                    return false;
                }
                let expected = if self.votes_for_p1 >= RESOLUTION_THRESHOLD {
                    &self.p1
                } else {
                    &self.p2
                };
                if !w.key_eq(expected) {
                    return false;
                }
            },
            None => {
                if settled {
                    return false;
                }
            },
        }
        if self.cancelled != (self.status == ChallengeStatus::Cancelled) {
            return false;
        }
        true
    }
}

/// A freshly created challenge: zero fees count as paid, and a challenge with
/// nothing to pay waits for the deposits straight away.
pub open spec fn created_view(
    p1: Pubkey,
    p2: Pubkey,
    challenge_id: u64,
    p1_fee: u64,
    p2_fee: u64,
    nft1_mint: Pubkey,
    nft2_mint: Pubkey,
) -> ChallengeView {
    ChallengeView {
        p1,
        p2,
        challenge_id,
        p1_fee,
        p2_fee,
        p1_paid: p1_fee == 0,
        p2_paid: p2_fee == 0,
        nft1_mint,
        nft2_mint,
        nft1_status: NFTStatus::NotDeposited,
        nft2_status: NFTStatus::NotDeposited,
        status: if p1_fee == 0 && p2_fee == 0 {
            ChallengeStatus::PendingEscrow
        } else {
            ChallengeStatus::PendingFee
        },
        winner: None,
        cancelled: false,
        moderator_votes: Seq::empty(),
        votes_for_p1: 0,
        votes_for_p2: 0,
        votes_to_cancel: 0,
    }
}

/// Once both fees are settled a challenge still waiting for them moves on to
/// wait for the deposits; in any later status it stays where it is.
pub open spec fn settle_fees(c: ChallengeView) -> ChallengeView {
    if c.p1_paid && c.p2_paid && c.status == ChallengeStatus::PendingFee {
        ChallengeView { status: ChallengeStatus::PendingEscrow, ..c }
    } else {
        c
    }
}

/// Outcome of `payer` paying their service fee.
pub open spec fn pay_fee_step(c: ChallengeView, payer: Pubkey) -> Result<ChallengeView, CustomError> {
    if payer == c.p1 {
        if c.p1_paid {
            Err(CustomError::FeeAlreadyPaid)
        } else {
            Ok(settle_fees(ChallengeView { p1_paid: true, ..c }))
        }
    } else if payer == c.p2 {
        if c.p2_paid {
            Err(CustomError::FeeAlreadyPaid)
        } else {
            Ok(settle_fees(ChallengeView { p2_paid: true, ..c }))
        }
    } else {
        Err(CustomError::InvalidPayer)
    }
}

/// The payment that goes with a successful fee settlement: none for a zero fee.
pub open spec fn fee_transfer(c: ChallengeView, payer: Pubkey, treasury: Pubkey) -> Option<
    FeeTransfer,
> {
    let fee = if payer == c.p1 {
        c.p1_fee
    } else {
        c.p2_fee
    };
    if fee > 0 {
        Some(FeeTransfer { from: payer, to: treasury, lamports: fee })
    } else {
        None
    }
}

/// Once both assets are in custody a challenge that is not yet ready becomes
/// ready for votes; a settled one stays settled.
pub open spec fn settle_deposits(c: ChallengeView) -> ChallengeView {
    if c.nft1_status == NFTStatus::Deposited && c.nft2_status == NFTStatus::Deposited && (c.status
        == ChallengeStatus::PendingFee || c.status == ChallengeStatus::PendingEscrow) {
        ChallengeView { status: ChallengeStatus::Ready, ..c }
    } else {
        c
    }
}

/// Outcome of `depositor` handing over their pledged asset.
pub open spec fn deposit_step(c: ChallengeView, depositor: Pubkey) -> Result<
    ChallengeView,
    CustomError,
> {
    if depositor == c.p1 {
        if c.nft1_status != NFTStatus::NotDeposited {
            Err(CustomError::AlreadyDeposited)
        } else {
            Ok(settle_deposits(ChallengeView { nft1_status: NFTStatus::Deposited, ..c }))
        }
    } else if depositor == c.p2 {
        if c.nft2_status != NFTStatus::NotDeposited {
            Err(CustomError::AlreadyDeposited)
        } else {
            Ok(settle_deposits(ChallengeView { nft2_status: NFTStatus::Deposited, ..c }))
        }
    } else {
        Err(CustomError::InvalidPayer)
    }
}

/// The custody transfer that goes with a successful deposit.
pub open spec fn deposit_transfer(c: ChallengeView, depositor: Pubkey) -> AssetTransfer {
    AssetTransfer::IntoEscrow {
        mint: if depositor == c.p1 {
            c.nft1_mint
        } else {
            c.nft2_mint
        },
        owner: depositor,
    }
}

/// The vote of `moderator` recorded and counted, before any outcome is decided.
pub open spec fn count_vote(c: ChallengeView, moderator: Pubkey, vote: u8) -> ChallengeView {
    let n = ChallengeView { moderator_votes: c.moderator_votes.push(moderator), ..c };
    if vote == VOTE_FOR_P1 {
        ChallengeView { votes_for_p1: c.votes_for_p1 + 1, ..n }
    } else if vote == VOTE_FOR_P2 {
        ChallengeView { votes_for_p2: c.votes_for_p2 + 1, ..n }
    } else {
        ChallengeView { votes_to_cancel: c.votes_to_cancel + 1, ..n }
    }
}

/// The threshold rule, checked for party one, then party two, then cancellation.
pub open spec fn apply_threshold(c: ChallengeView) -> ChallengeView {
    if c.votes_for_p1 >= RESOLUTION_THRESHOLD {
        ChallengeView { status: ChallengeStatus::Completed, winner: Some(c.p1), ..c }
    } else if c.votes_for_p2 >= RESOLUTION_THRESHOLD {
        ChallengeView { status: ChallengeStatus::Completed, winner: Some(c.p2), ..c }
    } else if c.votes_to_cancel >= RESOLUTION_THRESHOLD {
        ChallengeView { status: ChallengeStatus::Cancelled, cancelled: true, ..c }
    } else {
        c
    }
}

/// Outcome of `moderator` casting `vote`, with `moderators` the trusted list.
pub open spec fn vote_step(
    c: ChallengeView,
    moderators: Seq<Pubkey>,
    moderator: Pubkey,
    vote: u8,
) -> Result<ChallengeView, CustomError> {
    if !moderators.contains(moderator) {
        Err(CustomError::UnauthorizedModeratorSigner)
    } else if c.moderator_votes.contains(moderator) {
        Err(CustomError::AlreadyVoted)
    } else if vote != VOTE_CANCEL && c.status != ChallengeStatus::Ready {
        Err(CustomError::InvalidChallengeState)
    } else if vote != VOTE_FOR_P1 && vote != VOTE_FOR_P2 && vote != VOTE_CANCEL {
        Err(CustomError::UnknownVoteType)
    } else {
        Ok(apply_threshold(count_vote(c, moderator, vote)))
    }
}

/// Outcome of `claimer` taking both assets as the winner.
pub open spec fn claim_winner_step(c: ChallengeView, claimer: Pubkey) -> Result<
    ChallengeView,
    CustomError,
> {
    if c.status != ChallengeStatus::Completed {
        Err(CustomError::InvalidChallengeState)
    } else if c.winner != Some(claimer) {
        Err(CustomError::InvalidPayer)
    } else if c.nft1_status != NFTStatus::Deposited || c.nft2_status != NFTStatus::Deposited {
        Err(CustomError::InvalidChallengeState)
    } else {
        Ok(ChallengeView { nft1_status: NFTStatus::Claimed, nft2_status: NFTStatus::Claimed, ..c })
    }
}

/// Outcome of `claimer` taking back their own asset into an account owned by
/// `destination_owner`.
pub open spec fn claim_refund_step(
    c: ChallengeView,
    claimer: Pubkey,
    destination_owner: Pubkey,
) -> Result<ChallengeView, CustomError> {
    if c.status != ChallengeStatus::Cancelled {
        Err(CustomError::InvalidChallengeState)
    } else if destination_owner != claimer {
        Err(CustomError::InvalidPayer)
    } else if claimer == c.p1 {
        if c.nft1_status != NFTStatus::Deposited {
            Err(CustomError::InvalidChallengeState)
        } else {
            Ok(ChallengeView { nft1_status: NFTStatus::Refunded, ..c })
        }
    } else if claimer == c.p2 {
        if c.nft2_status != NFTStatus::Deposited {
            Err(CustomError::InvalidChallengeState)
        } else {
            Ok(ChallengeView { nft2_status: NFTStatus::Refunded, ..c })
        }
    } else {
        Err(CustomError::InvalidPayer)
    }
}

/// The custody transfer that goes with a successful refund.
pub open spec fn refund_transfer(c: ChallengeView, claimer: Pubkey) -> AssetTransfer {
    AssetTransfer::OutOfEscrow {
        mint: if claimer == c.p1 {
            c.nft1_mint
        } else {
            c.nft2_mint
        },
        recipient: claimer,
    }
}

/// Creates the challenge of `p1` numbered `challenge_id` in `slot`, the place
/// that record is kept under. An API signer of the registry must co-sign, and
/// the place must still be free.
pub fn initialize_challenge(
    config: &Config,
    slot: &mut Option<Challenge>,
    api_signer: Pubkey,
    p1: Pubkey,
    p2: Pubkey,
    challenge_id: u64,
    p1_fee: u64,
    p2_fee: u64,
    nft1_mint: Pubkey,
    nft2_mint: Pubkey,
) -> (r: Result<(), CustomError>)
    ensures
        !config.api_signers@.contains(api_signer) ==> r == Err::<(), CustomError>(
            CustomError::UnauthorizedApiSigner,
        ),
        config.api_signers@.contains(api_signer) && old(slot).is_some() ==> r == Err::<
            (),
            CustomError,
        >(CustomError::ChallengeAlreadyExists),
        r is Err ==> *final(slot) == *old(slot),
        config.api_signers@.contains(api_signer) && old(slot).is_none() ==> {
            &&& r is Ok
            &&& final(slot).is_some()
            &&& final(slot).unwrap()@ == created_view(
                p1,
                p2,
                challenge_id,
                p1_fee,
                p2_fee,
                nft1_mint,
                nft2_mint,
            )
            &&& final(slot).unwrap().wf()
        },
{
    if !crate::config::contains_key(&config.api_signers, &api_signer) {
        return Err(CustomError::UnauthorizedApiSigner);
    }
    if slot.is_some() {
        return Err(CustomError::ChallengeAlreadyExists);
    }
    let p1_paid = p1_fee == 0;
    let p2_paid = p2_fee == 0;
    let status = if p1_paid && p2_paid {
        ChallengeStatus::PendingEscrow
    } else {
        ChallengeStatus::PendingFee
    };
    let challenge = Challenge {
        p1,
        p2,
        challenge_id,
        p1_fee,
        p2_fee,
        p1_paid,
        p2_paid,
        nft1_mint,
        nft2_mint,
        nft1_status: NFTStatus::NotDeposited,
        nft2_status: NFTStatus::NotDeposited,
        status,
        winner: None,
        cancelled: false,
        moderator_votes: Vec::new(),
        votes_for_p1: 0,
        votes_for_p2: 0,
        votes_to_cancel: 0,
    };
    proof {
        assert(challenge@.moderator_votes =~= Seq::<Pubkey>::empty());
    }
    *slot = Some(challenge);
    Ok(())
}

/// Settles the service fee of `payer`, one of the two parties. A nonzero fee
/// comes back as the payment to the registry's treasury that must go with it.
pub fn pay_service_fee(config: &Config, challenge: &mut Challenge, payer: Pubkey) -> (r: Result<
    Option<FeeTransfer>,
    CustomError,
>)
    requires
        old(challenge).wf(),
    ensures
        final(challenge).wf(),
        match pay_fee_step(old(challenge)@, payer) {
            Ok(n) => r == Ok::<Option<FeeTransfer>, CustomError>(
                fee_transfer(old(challenge)@, payer, config.treasury),
            ) && final(challenge)@ == n,
            Err(e) => r == Err::<Option<FeeTransfer>, CustomError>(e) && final(challenge)@ == old(challenge)@,
        },
{
    let fee: u64;
    if payer.key_eq(&challenge.p1) {
        if challenge.p1_paid {
            return Err(CustomError::FeeAlreadyPaid);
        }
        fee = challenge.p1_fee;
        challenge.p1_paid = true;
    } else if payer.key_eq(&challenge.p2) {
        if challenge.p2_paid {
            return Err(CustomError::FeeAlreadyPaid);
        }
        fee = challenge.p2_fee;
        challenge.p2_paid = true;
    } else {
        return Err(CustomError::InvalidPayer);
    }
    if challenge.p1_paid && challenge.p2_paid && challenge.status == ChallengeStatus::PendingFee {
        challenge.status = ChallengeStatus::PendingEscrow;
    }
    if fee > 0 {
        Ok(Some(FeeTransfer { from: payer, to: config.treasury, lamports: fee }))
    } else {
        Ok(None)
    }
}

/// Records that `depositor`, one of the two parties, hands over their pledged
/// asset, and gives back the custody transfer that must go with it. Either
/// party may come first; the challenge is ready once both are in custody.
pub fn deposit_nft(challenge: &mut Challenge, depositor: Pubkey) -> (r: Result<
    AssetTransfer,
    CustomError,
>)
    requires
        old(challenge).wf(),
    ensures
        final(challenge).wf(),
        match deposit_step(old(challenge)@, depositor) {
            Ok(n) => r == Ok::<AssetTransfer, CustomError>(
                deposit_transfer(old(challenge)@, depositor),
            ) && final(challenge)@ == n,
            Err(e) => r == Err::<AssetTransfer, CustomError>(e) && final(challenge)@ == old(challenge)@,
        },
{
    let mint: Pubkey;
    if depositor.key_eq(&challenge.p1) {
        if challenge.nft1_status != NFTStatus::NotDeposited {
            return Err(CustomError::AlreadyDeposited);
        }
        challenge.nft1_status = NFTStatus::Deposited;
        mint = challenge.nft1_mint;
    } else if depositor.key_eq(&challenge.p2) {
        if challenge.nft2_status != NFTStatus::NotDeposited {
            return Err(CustomError::AlreadyDeposited);
        }
        challenge.nft2_status = NFTStatus::Deposited;
        mint = challenge.nft2_mint;
    } else {
        return Err(CustomError::InvalidPayer);
    }
    if challenge.nft1_status == NFTStatus::Deposited && challenge.nft2_status
        == NFTStatus::Deposited && (challenge.status == ChallengeStatus::PendingFee
        || challenge.status == ChallengeStatus::PendingEscrow) {
        challenge.status = ChallengeStatus::Ready;
    }
    Ok(AssetTransfer::IntoEscrow { mint, owner: depositor })
}

/// Records the vote of a trusted moderator and applies the threshold rule.
/// Votes for a party need a ready challenge; a vote to cancel is taken in any
/// status.
pub fn resolve_challenge(
    config: &Config,
    challenge: &mut Challenge,
    moderator: Pubkey,
    vote: u8,
) -> (r: Result<(), CustomError>)
    requires
        old(challenge).wf(),
        old(challenge).moderator_votes@.len() < 255,
    ensures
        final(challenge).wf(),
        match vote_step(old(challenge)@, config.moderator_signers@, moderator, vote) {
            Ok(n) => r == Ok::<(), CustomError>(()) && final(challenge)@ == n,
            Err(e) => r == Err::<(), CustomError>(e) && final(challenge)@ == old(challenge)@,
        },
{
    if !crate::config::contains_key(&config.moderator_signers, &moderator) {
        return Err(CustomError::UnauthorizedModeratorSigner);
    }
    if crate::config::contains_key(&challenge.moderator_votes, &moderator) {
        return Err(CustomError::AlreadyVoted);
    }
    if vote != VOTE_CANCEL && challenge.status != ChallengeStatus::Ready {
        return Err(CustomError::InvalidChallengeState);
    }
    if vote != VOTE_FOR_P1 && vote != VOTE_FOR_P2 && vote != VOTE_CANCEL {
        return Err(CustomError::UnknownVoteType);
    }
    challenge.moderator_votes.push(moderator);
    if vote == VOTE_FOR_P1 {
        challenge.votes_for_p1 = challenge.votes_for_p1 + 1;
    } else if vote == VOTE_FOR_P2 {
        challenge.votes_for_p2 = challenge.votes_for_p2 + 1;
    } else {
        challenge.votes_to_cancel = challenge.votes_to_cancel + 1;
    }
    if challenge.votes_for_p1 >= RESOLUTION_THRESHOLD {
        challenge.status = ChallengeStatus::Completed;
        challenge.winner = Some(challenge.p1);
    } else if challenge.votes_for_p2 >= RESOLUTION_THRESHOLD {
        challenge.status = ChallengeStatus::Completed;
        challenge.winner = Some(challenge.p2);
    } else if challenge.votes_to_cancel >= RESOLUTION_THRESHOLD {
        challenge.status = ChallengeStatus::Cancelled;
        challenge.cancelled = true;
    }
    Ok(())
}

/// The winner of a completed challenge takes both assets, once. The two
/// custody transfers that must go with it come back, first asset first.
pub fn claim_winner_nfts(challenge: &mut Challenge, claimer: Pubkey) -> (r: Result<
    (AssetTransfer, AssetTransfer),
    CustomError,
>)
    requires
        old(challenge).wf(),
    ensures
        final(challenge).wf(),
        match claim_winner_step(old(challenge)@, claimer) {
            Ok(n) => r == Ok::<(AssetTransfer, AssetTransfer), CustomError>(
                (
                    AssetTransfer::OutOfEscrow { mint: old(challenge).nft1_mint, recipient: claimer },
                    AssetTransfer::OutOfEscrow { mint: old(challenge).nft2_mint, recipient: claimer },
                ),
            ) && final(challenge)@ == n,
            Err(e) => r == Err::<(AssetTransfer, AssetTransfer), CustomError>(e) && final(challenge)@ == old(challenge)@,
        },
{
    if challenge.status != ChallengeStatus::Completed {
        return Err(CustomError::InvalidChallengeState);
    }
    let is_winner = match &challenge.winner {
        Some(w) => w.key_eq(&claimer),
        None => false,
    };
    if !is_winner {
        return Err(CustomError::InvalidPayer);
    }
    if challenge.nft1_status != NFTStatus::Deposited || challenge.nft2_status
        != NFTStatus::Deposited {
        return Err(CustomError::InvalidChallengeState);
    }
    challenge.nft1_status = NFTStatus::Claimed;
    challenge.nft2_status = NFTStatus::Claimed;
    Ok(
        (
            AssetTransfer::OutOfEscrow { mint: challenge.nft1_mint, recipient: claimer },
            AssetTransfer::OutOfEscrow { mint: challenge.nft2_mint, recipient: claimer },
        ),
    )
}

/// After a cancellation each party takes back their own deposited asset into
/// an account owned by `destination_owner`, which must be the claimer.
pub fn claim_refund_nft(
    challenge: &mut Challenge,
    claimer: Pubkey,
    destination_owner: Pubkey,
) -> (r: Result<AssetTransfer, CustomError>)
    requires
        old(challenge).wf(),
    ensures
        final(challenge).wf(),
        match claim_refund_step(old(challenge)@, claimer, destination_owner) {
            Ok(n) => r == Ok::<AssetTransfer, CustomError>(
                refund_transfer(old(challenge)@, claimer),
            ) && final(challenge)@ == n,
            Err(e) => r == Err::<AssetTransfer, CustomError>(e) && final(challenge)@ == old(challenge)@,
        },
{
    if challenge.status != ChallengeStatus::Cancelled {
        return Err(CustomError::InvalidChallengeState);
    }
    if !destination_owner.key_eq(&claimer) {
        return Err(CustomError::InvalidPayer);
    }
    if claimer.key_eq(&challenge.p1) {
        if challenge.nft1_status != NFTStatus::Deposited {
            return Err(CustomError::InvalidChallengeState);
        }
        challenge.nft1_status = NFTStatus::Refunded;
        Ok(AssetTransfer::OutOfEscrow { mint: challenge.nft1_mint, recipient: claimer })
    } else if claimer.key_eq(&challenge.p2) {
        if challenge.nft2_status != NFTStatus::Deposited {
            return Err(CustomError::InvalidChallengeState);
        }
        challenge.nft2_status = NFTStatus::Refunded;
        Ok(AssetTransfer::OutOfEscrow { mint: challenge.nft2_mint, recipient: claimer })
    } else {
        Err(CustomError::InvalidPayer)
    }
}

} // verus!
