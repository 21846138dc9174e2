use vstd::prelude::*;

verus! {

/// Every way an operation can be rejected. A rejected operation changes nothing.
#[derive(Clone, Copy, Debug, PartialEq, Eq, Structural)]
pub enum CustomError {
    /// Only the admin can perform this action.
    Unauthorized,
    /// Signer is not in the trusted API signer list.
    UnauthorizedApiSigner,
    /// Signer is not in the trusted moderator signer list.
    UnauthorizedModeratorSigner,
    /// Challenge already exists.
    ChallengeAlreadyExists,
    /// Service fee already paid.
    FeeAlreadyPaid,
    /// Fee must be greater than zero.
    InvalidFeeAmount,
    /// Invalid payer.
    InvalidPayer,
    /// NFT already deposited.
    AlreadyDeposited,
    /// Invalid challenge state.
    InvalidChallengeState,
    /// Too many signers.
    TooManySigners,
    /// Unknown vote type.
    UnknownVoteType,
    /// Already voted.
    AlreadyVoted,
    /// The registry has already been created.
    AlreadyInitialized,
}

impl CustomError {
    /// The human-readable message of the error.
    pub fn message(&self) -> (r: &'static str) {
        match self {
            CustomError::Unauthorized => "Only the admin can perform this action.",
            CustomError::UnauthorizedApiSigner => "Signer is not in the trusted API signer list.",
            CustomError::UnauthorizedModeratorSigner => "Signer is not in the trusted moderator signer list.",
            CustomError::ChallengeAlreadyExists => "Challenge already exists.",
            CustomError::FeeAlreadyPaid => "Service fee already paid.",
            CustomError::InvalidFeeAmount => "Fee must be greater than zero.",
            CustomError::InvalidPayer => "Invalid payer",
            CustomError::AlreadyDeposited => "NFT already deposited.",
            CustomError::InvalidChallengeState => "Invalid challenge state",
            CustomError::TooManySigners => "Too many signers",
            CustomError::UnknownVoteType => "Unknown vote type",
            CustomError::AlreadyVoted => "Already voted.",
            CustomError::AlreadyInitialized => "Registry already initialized.",
        }
    }
}

} // verus!
