//! A wagering engine: players deposit value, bet on the outcome of a game, and
//! are paid according to a random value that an oracle supplies.
//!
//! The engine keeps, for each player, the round in play and a bounded history
//! of the rounds before it. A bet opens a round and requests randomness for
//! it; a settlement applies the oracle's answer to exactly that round, once,
//! and moves the wager from the escrow to the house or, with the winnings, to
//! the player. Every operation either is carried out in full or changes
//! nothing.
//!
//! The engine works on plain values: the records, the token accounts and the
//! oracle's accounts as the ledger holds them. It decides what is to be done
//! and says so in what it returns; the calls to the token program and to the
//! oracle are made by the program around it.
//!
//! - [`game`]: the catalogue of games.
//! - [`round`], [`history`], [`user`], [`house`]: the records.
//! - [`token`]: the custody ledger, that is who holds what and who may move it.
//! - [`oracle`]: the randomness account and the reading of its answer.
//! - [`actions`]: the five operations, each with its accounts, its checks and
//!   its effect; [`program`] puts checks and effect together and states what
//!   holds of a sequence of operations.
//! - [`params`], [`runner`]: the settling function's parameters and the
//!   instruction that it emits.
//! - [`pubkey`], [`error`], [`events`]: addresses, refusals, reports.

pub mod actions;
pub mod error;
pub mod events;
pub mod game;
pub mod history;
pub mod house;
pub mod oracle;
pub mod params;
pub mod program;
pub mod pubkey;
pub mod round;
pub mod runner;
pub mod token;
pub mod user;

pub use actions::{
    fund_escrow, BetPlaced, BetSettled, HouseInit, HouseInitParams, UserAirdrop,
    UserAirdropParams, UserBet, UserBetParams, UserInit, UserInitParams, UserSettle,
    UserSettleParams,
};
pub use error::{AccountError, ActionError, VrfFlipError};
pub use events::{UserBetPlaced, UserBetSettled};
pub use game::{GameConfig, GameType};
pub use history::{History, MAX_HISTORY};
pub use house::HouseState;
pub use oracle::{OracleQueue, VrfAccount};
pub use params::{ContainerParams, ParamsError};
pub use program::{house_init, user_airdrop, user_bet, user_init, user_settle};
pub use pubkey::Pubkey;
pub use round::{Clock, Round, RoundStatus};
pub use runner::{AccountMeta, Instruction, Runner};
pub use token::{mint_to, set_close_authority, set_owner, transfer, Mint, TokenAccount, TokenError};
pub use user::{
    RequestRandomness, RequestRandomnessAccounts, RequestRandomnessBumps, UserSigner, UserState,
    VrfRequestRandomness,
};
