//! Two-party asset escrow with moderator-voted dispute resolution.
//!
//! The library holds the role registry and the challenge lifecycle as plain
//! state machines. Operations that move value (fee payments, asset custody
//! transfers) are returned as transfer descriptions: the caller performs them
//! in the same atomic transaction that commits the new state.
pub mod challenge;
pub mod config;
pub mod error;
pub mod laws;
pub mod pubkey;

pub use challenge::{
    claim_refund_nft, claim_winner_nfts, deposit_nft, initialize_challenge, pay_service_fee,
    resolve_challenge, AssetTransfer, Challenge, ChallengeStatus, FeeTransfer, NFTStatus,
    RESOLUTION_THRESHOLD, VOTE_CANCEL, VOTE_FOR_P1, VOTE_FOR_P2,
};
pub use config::{
    add_api_signer, add_moderator_signer, initialize_config, remove_api_signer,
    remove_moderator_signer, update_treasury, Config, InitConfigParams, MAX_SIGNERS,
};
pub use error::CustomError;
pub use laws::Op;
pub use pubkey::Pubkey;
