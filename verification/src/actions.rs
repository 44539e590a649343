//! The operations of the engine, each with the accounts it works on.

pub mod house_init;
pub mod user_airdrop;
pub mod user_bet;
pub mod user_init;
pub mod user_settle;

pub use house_init::{HouseInit, HouseInitParams};
pub use user_airdrop::{UserAirdrop, UserAirdropParams};
pub use user_bet::{fund_escrow, BetPlaced, UserBet, UserBetParams};
pub use user_init::{UserInit, UserInitParams};
pub use user_settle::{BetSettled, UserSettle, UserSettleParams};
