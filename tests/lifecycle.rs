use trinity_escrow::{
    add_api_signer, add_moderator_signer, claim_refund_nft, claim_winner_nfts, deposit_nft,
    initialize_challenge, initialize_config, pay_service_fee, remove_api_signer,
    remove_moderator_signer, resolve_challenge, update_treasury, AssetTransfer, Challenge,
    ChallengeStatus, Config, CustomError, FeeTransfer, InitConfigParams, NFTStatus, Pubkey,
    VOTE_CANCEL, VOTE_FOR_P1, VOTE_FOR_P2,
};

fn pk(n: u8) -> Pubkey {
    Pubkey::new([n; 32])
}

const ADMIN: u8 = 1;
const TREASURY: u8 = 2;
const API: u8 = 3;
const P1: u8 = 10;
const P2: u8 = 11;
const MINT1: u8 = 20;
const MINT2: u8 = 21;
const STRANGER: u8 = 99;

fn registry() -> Config {
    let mut slot: Option<Config> = None;
    initialize_config(
        &mut slot,
        pk(ADMIN),
        InitConfigParams { chain_id: [7; 16], treasury: pk(TREASURY) },
    )
    .unwrap();
    let mut config = slot.unwrap();
    add_api_signer(&mut config, pk(ADMIN), pk(API)).unwrap();
    for m in 30..35u8 {
        add_moderator_signer(&mut config, pk(ADMIN), pk(m)).unwrap();
    }
    config
}

fn challenge(config: &Config, p1_fee: u64, p2_fee: u64) -> Challenge {
    let mut slot: Option<Challenge> = None;
    initialize_challenge(
        config, &mut slot, pk(API), pk(P1), pk(P2), 5, p1_fee, p2_fee, pk(MINT1), pk(MINT2),
    )
    .unwrap();
    slot.unwrap()
}

fn ready_challenge(config: &Config) -> Challenge {
    let mut c = challenge(config, 0, 0);
    deposit_nft(&mut c, pk(P1)).unwrap();
    deposit_nft(&mut c, pk(P2)).unwrap();
    c
}

#[test]
fn config_starts_empty() {
    let mut slot: Option<Config> = None;
    let params = InitConfigParams { chain_id: [9; 16], treasury: pk(TREASURY) };
    assert_eq!(initialize_config(&mut slot, pk(ADMIN), params), Ok(()));
    let config = slot.clone().unwrap();
    assert_eq!(config.admin, pk(ADMIN));
    assert_eq!(config.treasury, pk(TREASURY));
    assert_eq!(config.chain_id, [9; 16]);
    assert!(config.api_signers.is_empty());
    assert!(config.moderator_signers.is_empty());
    assert_eq!(
        initialize_config(&mut slot, pk(STRANGER), params),
        Err(CustomError::AlreadyInitialized)
    );
    assert_eq!(slot.unwrap().admin, pk(ADMIN));
}

#[test]
fn only_admin_changes_registry() {
    let mut config = registry();
    assert_eq!(add_api_signer(&mut config, pk(STRANGER), pk(40)), Err(CustomError::Unauthorized));
    assert_eq!(remove_api_signer(&mut config, pk(STRANGER), pk(API)), Err(CustomError::Unauthorized));
    assert_eq!(add_moderator_signer(&mut config, pk(STRANGER), pk(40)), Err(CustomError::Unauthorized));
    assert_eq!(
        remove_moderator_signer(&mut config, pk(STRANGER), pk(30)),
        Err(CustomError::Unauthorized)
    );
    assert_eq!(update_treasury(&mut config, pk(STRANGER), pk(40)), Err(CustomError::Unauthorized));
    assert_eq!(config.api_signers, vec![pk(API)]);
    assert_eq!(config.moderator_signers.len(), 5);
    assert_eq!(config.treasury, pk(TREASURY));
    assert_eq!(update_treasury(&mut config, pk(ADMIN), pk(40)), Ok(()));
    assert_eq!(config.treasury, pk(40));
}

#[test]
fn adding_signers_is_idempotent_and_bounded() {
    let mut config = registry();
    assert_eq!(add_api_signer(&mut config, pk(ADMIN), pk(API)), Ok(()));
    assert_eq!(config.api_signers, vec![pk(API)]);
    for n in 100..109u8 {
        assert_eq!(add_api_signer(&mut config, pk(ADMIN), pk(n)), Ok(()));
    }
    assert_eq!(config.api_signers.len(), 10);
    assert_eq!(add_api_signer(&mut config, pk(ADMIN), pk(200)), Err(CustomError::TooManySigners));
    assert_eq!(config.api_signers.len(), 10);
    // a signer already present is still accepted at capacity
    assert_eq!(add_api_signer(&mut config, pk(ADMIN), pk(104)), Ok(()));
    assert_eq!(config.api_signers.len(), 10);
    for n in 35..40u8 {
        assert_eq!(add_moderator_signer(&mut config, pk(ADMIN), pk(n)), Ok(()));
    }
    assert_eq!(
        add_moderator_signer(&mut config, pk(ADMIN), pk(200)),
        Err(CustomError::TooManySigners)
    );
}

#[test]
fn removing_signers_keeps_order() {
    let mut config = registry();
    add_api_signer(&mut config, pk(ADMIN), pk(4)).unwrap();
    add_api_signer(&mut config, pk(ADMIN), pk(5)).unwrap();
    assert_eq!(remove_api_signer(&mut config, pk(ADMIN), pk(4)), Ok(()));
    assert_eq!(config.api_signers, vec![pk(API), pk(5)]);
    assert_eq!(remove_api_signer(&mut config, pk(ADMIN), pk(77)), Ok(()));
    assert_eq!(config.api_signers, vec![pk(API), pk(5)]);
    assert_eq!(remove_moderator_signer(&mut config, pk(ADMIN), pk(32)), Ok(()));
    assert_eq!(config.moderator_signers, vec![pk(30), pk(31), pk(33), pk(34)]);
}

#[test]
fn challenge_creation_needs_api_signer_and_free_slot() {
    let config = registry();
    let mut slot: Option<Challenge> = None;
    assert_eq!(
        initialize_challenge(
            &config, &mut slot, pk(STRANGER), pk(P1), pk(P2), 1, 0, 0, pk(MINT1), pk(MINT2)
        ),
        Err(CustomError::UnauthorizedApiSigner)
    );
    assert!(slot.is_none());
    assert_eq!(
        initialize_challenge(&config, &mut slot, pk(API), pk(P1), pk(P2), 1, 7, 0, pk(MINT1), pk(MINT2)),
        Ok(())
    );
    assert_eq!(
        initialize_challenge(&config, &mut slot, pk(API), pk(P1), pk(P2), 1, 0, 0, pk(MINT1), pk(MINT2)),
        Err(CustomError::ChallengeAlreadyExists)
    );
    let c = slot.unwrap();
    assert_eq!(c.p1_fee, 7);
    assert!(!c.p1_paid);
    assert!(c.p2_paid);
    assert_eq!(c.status, ChallengeStatus::PendingFee);
    assert_eq!(c.nft1_status, NFTStatus::NotDeposited);
    assert_eq!(c.nft2_status, NFTStatus::NotDeposited);
    assert_eq!(c.winner, None);
    assert!(c.moderator_votes.is_empty());
}

#[test]
fn zero_fees_go_straight_to_escrow() {
    let config = registry();
    let c = challenge(&config, 0, 0);
    assert!(c.p1_paid && c.p2_paid);
    assert_eq!(c.status, ChallengeStatus::PendingEscrow);
}

#[test]
fn fees_settle_one_party_at_a_time() {
    let config = registry();
    let mut c = challenge(&config, 100, 50);
    assert_eq!(c.status, ChallengeStatus::PendingFee);
    assert_eq!(
        pay_service_fee(&config, &mut c, pk(P1)),
        Ok(Some(FeeTransfer { from: pk(P1), to: pk(TREASURY), lamports: 100 }))
    );
    assert!(c.p1_paid);
    assert_eq!(c.status, ChallengeStatus::PendingFee);
    assert_eq!(
        pay_service_fee(&config, &mut c, pk(P2)),
        Ok(Some(FeeTransfer { from: pk(P2), to: pk(TREASURY), lamports: 50 }))
    );
    assert!(c.p2_paid);
    assert_eq!(c.status, ChallengeStatus::PendingEscrow);
}

#[test]
fn second_fee_payment_is_rejected() {
    let config = registry();
    let mut c = challenge(&config, 100, 0);
    assert!(pay_service_fee(&config, &mut c, pk(P1)).is_ok());
    assert_eq!(pay_service_fee(&config, &mut c, pk(P1)), Err(CustomError::FeeAlreadyPaid));
    // a zero fee counts as paid from the start
    assert_eq!(pay_service_fee(&config, &mut c, pk(P2)), Err(CustomError::FeeAlreadyPaid));
    assert_eq!(pay_service_fee(&config, &mut c, pk(STRANGER)), Err(CustomError::InvalidPayer));
    assert_eq!(c.status, ChallengeStatus::PendingEscrow);
}

#[test]
fn both_deposits_make_challenge_ready() {
    let config = registry();
    let mut c = challenge(&config, 0, 0);
    assert_eq!(
        deposit_nft(&mut c, pk(P2)),
        Ok(AssetTransfer::IntoEscrow { mint: pk(MINT2), owner: pk(P2) })
    );
    assert_eq!(c.nft2_status, NFTStatus::Deposited);
    assert_eq!(c.status, ChallengeStatus::PendingEscrow);
    assert_eq!(
        deposit_nft(&mut c, pk(P1)),
        Ok(AssetTransfer::IntoEscrow { mint: pk(MINT1), owner: pk(P1) })
    );
    assert_eq!(c.nft1_status, NFTStatus::Deposited);
    assert_eq!(c.status, ChallengeStatus::Ready);
}

#[test]
fn second_deposit_is_rejected() {
    let config = registry();
    let mut c = challenge(&config, 0, 0);
    deposit_nft(&mut c, pk(P1)).unwrap();
    assert_eq!(deposit_nft(&mut c, pk(P1)), Err(CustomError::AlreadyDeposited));
    assert_eq!(deposit_nft(&mut c, pk(STRANGER)), Err(CustomError::InvalidPayer));
    assert_eq!(c.nft1_status, NFTStatus::Deposited);
    assert_eq!(c.nft2_status, NFTStatus::NotDeposited);
}

#[test]
fn deposit_before_fee_is_accepted() {
    let config = registry();
    let mut c = challenge(&config, 10, 10);
    deposit_nft(&mut c, pk(P1)).unwrap();
    deposit_nft(&mut c, pk(P2)).unwrap();
    assert_eq!(c.status, ChallengeStatus::Ready);
    pay_service_fee(&config, &mut c, pk(P1)).unwrap();
    assert_eq!(c.status, ChallengeStatus::Ready);
    pay_service_fee(&config, &mut c, pk(P2)).unwrap();
    // settling the last fee never moves a ready challenge back
    assert_eq!(c.status, ChallengeStatus::Ready);
    assert!(c.p1_paid && c.p2_paid);
}

#[test]
fn deposit_after_cancellation_keeps_it_cancelled() {
    let config = registry();
    let mut c = challenge(&config, 0, 0);
    deposit_nft(&mut c, pk(P1)).unwrap();
    for m in 30..33u8 {
        resolve_challenge(&config, &mut c, pk(m), VOTE_CANCEL).unwrap();
    }
    assert_eq!(c.status, ChallengeStatus::Cancelled);
    assert_eq!(deposit_nft(&mut c, pk(P2)), Ok(AssetTransfer::IntoEscrow { mint: pk(MINT2), owner: pk(P2) }));
    assert_eq!(c.nft2_status, NFTStatus::Deposited);
    assert_eq!(c.status, ChallengeStatus::Cancelled);
    assert!(c.cancelled);
    assert!(claim_refund_nft(&mut c, pk(P2), pk(P2)).is_ok());
    assert_eq!(c.nft2_status, NFTStatus::Refunded);
}

#[test]
fn late_fee_after_completion_keeps_winner() {
    let config = registry();
    let mut c = challenge(&config, 10, 0);
    deposit_nft(&mut c, pk(P1)).unwrap();
    deposit_nft(&mut c, pk(P2)).unwrap();
    for m in 30..33u8 {
        resolve_challenge(&config, &mut c, pk(m), VOTE_FOR_P2).unwrap();
    }
    assert!(pay_service_fee(&config, &mut c, pk(P1)).is_ok());
    assert_eq!(c.status, ChallengeStatus::Completed);
    assert_eq!(c.winner, Some(pk(P2)));
    assert!(claim_winner_nfts(&mut c, pk(P2)).is_ok());
}

#[test]
fn three_votes_for_p1_complete_the_challenge() {
    let config = registry();
    let mut c = ready_challenge(&config);
    assert_eq!(resolve_challenge(&config, &mut c, pk(30), VOTE_FOR_P1), Ok(()));
    assert_eq!(resolve_challenge(&config, &mut c, pk(31), VOTE_FOR_P1), Ok(()));
    assert_eq!(c.status, ChallengeStatus::Ready);
    assert_eq!(resolve_challenge(&config, &mut c, pk(32), VOTE_FOR_P1), Ok(()));
    assert_eq!(c.status, ChallengeStatus::Completed);
    assert_eq!(c.winner, Some(pk(P1)));
    assert_eq!(c.votes_for_p1, 3);
    assert_eq!(
        resolve_challenge(&config, &mut c, pk(33), VOTE_FOR_P1),
        Err(CustomError::InvalidChallengeState)
    );
    assert_eq!(c.moderator_votes, vec![pk(30), pk(31), pk(32)]);
}

#[test]
fn three_votes_for_p2_complete_the_challenge() {
    let config = registry();
    let mut c = ready_challenge(&config);
    resolve_challenge(&config, &mut c, pk(30), VOTE_FOR_P2).unwrap();
    resolve_challenge(&config, &mut c, pk(31), VOTE_FOR_P1).unwrap();
    resolve_challenge(&config, &mut c, pk(32), VOTE_FOR_P2).unwrap();
    assert_eq!(c.status, ChallengeStatus::Ready);
    resolve_challenge(&config, &mut c, pk(33), VOTE_FOR_P2).unwrap();
    assert_eq!(c.status, ChallengeStatus::Completed);
    assert_eq!(c.winner, Some(pk(P2)));
}

#[test]
fn vote_errors() {
    let config = registry();
    let mut c = challenge(&config, 0, 0);
    assert_eq!(
        resolve_challenge(&config, &mut c, pk(STRANGER), VOTE_CANCEL),
        Err(CustomError::UnauthorizedModeratorSigner)
    );
    assert_eq!(
        resolve_challenge(&config, &mut c, pk(30), VOTE_FOR_P1),
        Err(CustomError::InvalidChallengeState)
    );
    assert_eq!(resolve_challenge(&config, &mut c, pk(30), VOTE_CANCEL), Ok(()));
    assert_eq!(
        resolve_challenge(&config, &mut c, pk(30), VOTE_CANCEL),
        Err(CustomError::AlreadyVoted)
    );
    let mut r = ready_challenge(&config);
    assert_eq!(resolve_challenge(&config, &mut r, pk(31), 9), Err(CustomError::UnknownVoteType));
    assert!(r.moderator_votes.is_empty());
    assert_eq!(r.votes_for_p1 + r.votes_for_p2 + r.votes_to_cancel, 0);
}

#[test]
fn cancel_then_refund_own_asset() {
    let config = registry();
    let mut c = challenge(&config, 0, 0);
    deposit_nft(&mut c, pk(P1)).unwrap();
    for m in 30..33u8 {
        assert_eq!(resolve_challenge(&config, &mut c, pk(m), VOTE_CANCEL), Ok(()));
    }
    assert_eq!(c.status, ChallengeStatus::Cancelled);
    assert!(c.cancelled);
    assert_eq!(c.winner, None);
    assert_eq!(
        claim_refund_nft(&mut c, pk(P1), pk(P1)),
        Ok(AssetTransfer::OutOfEscrow { mint: pk(MINT1), recipient: pk(P1) })
    );
    assert_eq!(c.nft1_status, NFTStatus::Refunded);
    assert_eq!(claim_refund_nft(&mut c, pk(P2), pk(P2)), Err(CustomError::InvalidChallengeState));
    assert_eq!(claim_refund_nft(&mut c, pk(P1), pk(P1)), Err(CustomError::InvalidChallengeState));
    assert_eq!(c.nft2_status, NFTStatus::NotDeposited);
}

#[test]
fn refund_errors() {
    let config = registry();
    let mut c = ready_challenge(&config);
    assert_eq!(claim_refund_nft(&mut c, pk(P1), pk(P1)), Err(CustomError::InvalidChallengeState));
    for m in 30..33u8 {
        resolve_challenge(&config, &mut c, pk(m), VOTE_CANCEL).unwrap();
    }
    assert_eq!(claim_refund_nft(&mut c, pk(P1), pk(P2)), Err(CustomError::InvalidPayer));
    assert_eq!(claim_refund_nft(&mut c, pk(STRANGER), pk(STRANGER)), Err(CustomError::InvalidPayer));
    assert_eq!(
        claim_refund_nft(&mut c, pk(P2), pk(P2)),
        Ok(AssetTransfer::OutOfEscrow { mint: pk(MINT2), recipient: pk(P2) })
    );
    assert_eq!(c.nft1_status, NFTStatus::Deposited);
    assert_eq!(c.nft2_status, NFTStatus::Refunded);
}

#[test]
fn winner_claims_both_assets_once() {
    let config = registry();
    let mut c = ready_challenge(&config);
    for m in 30..33u8 {
        resolve_challenge(&config, &mut c, pk(m), VOTE_FOR_P2).unwrap();
    }
    assert_eq!(
        claim_winner_nfts(&mut c, pk(P2)),
        Ok((
            AssetTransfer::OutOfEscrow { mint: pk(MINT1), recipient: pk(P2) },
            AssetTransfer::OutOfEscrow { mint: pk(MINT2), recipient: pk(P2) },
        ))
    );
    assert_eq!(c.nft1_status, NFTStatus::Claimed);
    assert_eq!(c.nft2_status, NFTStatus::Claimed);
    assert_eq!(claim_winner_nfts(&mut c, pk(P2)), Err(CustomError::InvalidChallengeState));
}

#[test]
fn winner_claim_errors() {
    let config = registry();
    let mut c = ready_challenge(&config);
    assert_eq!(claim_winner_nfts(&mut c, pk(P1)), Err(CustomError::InvalidChallengeState));
    for m in 30..33u8 {
        resolve_challenge(&config, &mut c, pk(m), VOTE_FOR_P1).unwrap();
    }
    assert_eq!(claim_winner_nfts(&mut c, pk(P2)), Err(CustomError::InvalidPayer));
    assert_eq!(c.nft1_status, NFTStatus::Deposited);
    assert!(claim_winner_nfts(&mut c, pk(P1)).is_ok());
}

#[test]
fn cancel_votes_after_completion_change_nothing() {
    let config = registry();
    let mut c = ready_challenge(&config);
    for m in 30..33u8 {
        resolve_challenge(&config, &mut c, pk(m), VOTE_FOR_P1).unwrap();
    }
    resolve_challenge(&config, &mut c, pk(33), VOTE_CANCEL).unwrap();
    resolve_challenge(&config, &mut c, pk(34), VOTE_CANCEL).unwrap();
    assert_eq!(c.status, ChallengeStatus::Completed);
    assert_eq!(c.winner, Some(pk(P1)));
    assert!(!c.cancelled);
}

#[test]
fn same_votes_give_same_outcome() {
    let config = registry();
    let votes = [(30u8, VOTE_FOR_P2), (31, VOTE_CANCEL), (32, VOTE_FOR_P2), (33, VOTE_FOR_P2)];
    let mut first = ready_challenge(&config);
    let mut second = ready_challenge(&config);
    for (m, v) in votes.iter() {
        let a = resolve_challenge(&config, &mut first, pk(*m), *v);
        let b = resolve_challenge(&config, &mut second, pk(*m), *v);
        assert_eq!(a, b);
    }
    assert_eq!(first.status, second.status);
    assert_eq!(first.winner, second.winner);
    assert_eq!(first.status, ChallengeStatus::Completed);
    assert_eq!(first.winner, Some(pk(P2)));
}

#[test]
fn asset_slots_only_move_forward() {
    let config = registry();
    let mut c = challenge(&config, 0, 0);
    deposit_nft(&mut c, pk(P1)).unwrap();
    deposit_nft(&mut c, pk(P2)).unwrap();
    for m in 30..33u8 {
        resolve_challenge(&config, &mut c, pk(m), VOTE_FOR_P1).unwrap();
    }
    claim_winner_nfts(&mut c, pk(P1)).unwrap();
    assert_eq!(deposit_nft(&mut c, pk(P1)), Err(CustomError::AlreadyDeposited));
    assert_eq!(claim_refund_nft(&mut c, pk(P1), pk(P1)), Err(CustomError::InvalidChallengeState));
    assert_eq!(c.nft1_status, NFTStatus::Claimed);
    assert_eq!(c.nft2_status, NFTStatus::Claimed);
}

#[test]
fn key_comparison_and_messages() {
    let mut b = [1u8; 32];
    b[31] = 2;
    assert!(pk(1).key_eq(&pk(1)));
    assert!(!pk(1).key_eq(&Pubkey::new(b)));
    assert_eq!(CustomError::InvalidPayer.message(), "Invalid payer");
    assert_eq!(CustomError::AlreadyVoted.message(), "Already voted.");
}

#[test]
fn stored_records_are_checked() {
    let config = registry();
    assert!(config.is_well_formed());
    let mut doubled = config.clone();
    doubled.api_signers.push(pk(API));
    assert!(!doubled.is_well_formed());
    let mut c = ready_challenge(&config);
    assert!(c.is_well_formed());
    resolve_challenge(&config, &mut c, pk(30), VOTE_FOR_P1).unwrap();
    assert!(c.is_well_formed());
    let mut miscounted = c.clone();
    miscounted.votes_for_p2 = 1;
    assert!(!miscounted.is_well_formed());
    let mut settled_early = challenge(&config, 0, 0);
    settled_early.status = ChallengeStatus::Completed;
    assert!(!settled_early.is_well_formed());
    let mut done = ready_challenge(&config);
    for m in 30..33u8 {
        resolve_challenge(&config, &mut done, pk(m), VOTE_FOR_P1).unwrap();
    }
    assert!(done.is_well_formed());
    let mut wrong_winner = done.clone();
    wrong_winner.winner = Some(pk(P2));
    assert!(!wrong_winner.is_well_formed());
    let mut flagged = done.clone();
    flagged.cancelled = true;
    assert!(!flagged.is_well_formed());
}
