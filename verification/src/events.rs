//! What the engine reports of a bet placed and of a bet settled.

use vstd::prelude::*;
use crate::game::GameType;
use crate::pubkey::Pubkey;

verus! {

/// A bet was placed.
#[derive(Clone, Copy, Debug)]
pub struct UserBetPlaced {
    pub round_id: u128,
    pub user: Pubkey,
    pub game_type: GameType,
    pub bet_amount: u64,
    pub guess: u32,
    pub slot: u64,
    pub timestamp: i64,
}

/// A bet was settled.
#[derive(Clone, Copy, Debug)]
pub struct UserBetSettled {
    pub round_id: u128,
    pub user: Pubkey,
    pub user_won: bool,
    pub game_type: GameType,
    pub bet_amount: u64,
    /// What left the escrow's custody: the wager on a loss, the wager and
    /// the winnings on a win.
    pub escrow_change: u64,
    pub guess: u32,
    pub result: u32,
    pub slot: u64,
    pub timestamp: i64,
}

} // verus!
