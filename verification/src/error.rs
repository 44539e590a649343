//! The named conditions under which the engine refuses an operation.

use vstd::prelude::*;
use crate::token::TokenError;

verus! {

/// Why an operation of the wagering engine was refused.
#[derive(Clone, Copy, Debug, PartialEq, Eq, Structural)]
pub enum VrfFlipError {
    InvalidInitialVrfCounter,
    InvalidVrfAuthority,
    InvalidSwitchboardAccount,
    IncorrectVrfCounter,
    InvalidGameType,
    CurrentRoundStillActive,
    CurrentRoundAlreadyClosed,
    InvalidBet,
    OracleQueueRequiresPermissions,
    OracleQueueMismatch,
    AirdropRequestedTooSoon,
    UserTokenBalanceHealthy,
    MaxBetAmountExceeded,
    InsufficientFunds,
    FlipRequestedTooSoon,
    UnauthorizedMint,
}

/// Which relation among the accounts presented to an operation is broken.
#[derive(Clone, Copy, Debug, PartialEq, Eq, Structural)]
pub enum AccountError {
    /// A record does not name the account presented along with it.
    HasOne,
    /// A token account holds another asset than the operation deals in.
    TokenMint,
    /// A token account is not controlled by the one who must control it.
    TokenOwner,
    /// The asset is not issued by the one who must issue it.
    MintAuthority,
    /// The asset cannot be frozen by the one who must be able to.
    MintFreezeAuthority,
    /// The asset does not have the number of decimals that it must have.
    MintDecimals,
    /// Two accounts that must refer to each other do not.
    Raw,
}

/// Why an operation failed. Whatever the reason, the operation has changed
/// nothing.
#[derive(Clone, Copy, Debug, PartialEq, Eq, Structural)]
pub enum ActionError {
    /// The engine refused the operation.
    Flip(VrfFlipError),
    /// The accounts presented do not belong together.
    Account(AccountError),
    /// The ledger refused a move of value.
    Token(TokenError),
    /// The oracle has no result for the request yet.
    VrfEmpty,
}

impl VrfFlipError {
    /// The text shown to a user for each condition.
    pub open spec fn message_text(self) -> Seq<char> {
        match self {
            VrfFlipError::InvalidInitialVrfCounter => "VRF Account counter should be 0 for a new lottery"@,
            VrfFlipError::InvalidVrfAuthority => "VRF Account authority should be the lottery Pubkey"@,
            VrfFlipError::InvalidSwitchboardAccount => "Provided account is not owned by the switchboard program"@,
            VrfFlipError::IncorrectVrfCounter => "VRF counter does not match the expected round id"@,
            VrfFlipError::InvalidGameType => "Failed to match the game type"@,
            VrfFlipError::CurrentRoundStillActive => "Current round is still active"@,
            VrfFlipError::CurrentRoundAlreadyClosed => "Current round has already settled"@,
            VrfFlipError::InvalidBet => "Invalid bet"@,
            VrfFlipError::OracleQueueRequiresPermissions => "Switchboard queue requires VRF permissions to request randomness"@,
            VrfFlipError::OracleQueueMismatch => "VRF account belongs to the incorrect oracle queue"@,
            VrfFlipError::AirdropRequestedTooSoon => "User requested an airdrop too soon"@,
            VrfFlipError::UserTokenBalanceHealthy => "User has enough funds and does not require an airdrop"@,
            VrfFlipError::MaxBetAmountExceeded => "Max bet exceeded"@,
            VrfFlipError::InsufficientFunds => "Insufficient funds to request randomness"@,
            VrfFlipError::FlipRequestedTooSoon => "User can flip once every 10 seconds"@,
            VrfFlipError::UnauthorizedMint => "House has no authority to mint more tokens"@,
        }
    }

    /// The text shown to a user for this condition.
    pub fn message(&self) -> (text: String)
        ensures
            text@ == self.message_text(),
    {
        let literal: &str = match self {
            VrfFlipError::InvalidInitialVrfCounter => "VRF Account counter should be 0 for a new lottery",
            VrfFlipError::InvalidVrfAuthority => "VRF Account authority should be the lottery Pubkey",
            VrfFlipError::InvalidSwitchboardAccount => "Provided account is not owned by the switchboard program",
            VrfFlipError::IncorrectVrfCounter => "VRF counter does not match the expected round id",
            VrfFlipError::InvalidGameType => "Failed to match the game type",
            VrfFlipError::CurrentRoundStillActive => "Current round is still active",
            VrfFlipError::CurrentRoundAlreadyClosed => "Current round has already settled",
            VrfFlipError::InvalidBet => "Invalid bet",
            VrfFlipError::OracleQueueRequiresPermissions => "Switchboard queue requires VRF permissions to request randomness",
            VrfFlipError::OracleQueueMismatch => "VRF account belongs to the incorrect oracle queue",
            VrfFlipError::AirdropRequestedTooSoon => "User requested an airdrop too soon",
            VrfFlipError::UserTokenBalanceHealthy => "User has enough funds and does not require an airdrop",
            VrfFlipError::MaxBetAmountExceeded => "Max bet exceeded",
            VrfFlipError::InsufficientFunds => "Insufficient funds to request randomness",
            VrfFlipError::FlipRequestedTooSoon => "User can flip once every 10 seconds",
            VrfFlipError::UnauthorizedMint => "House has no authority to mint more tokens",
        };
        literal.to_owned()
    }
}

} // verus!
