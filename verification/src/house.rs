//! The house: the one registry that players bet against.

use vstd::prelude::*;
use crate::pubkey::Pubkey;

verus! {

/// The registry of the house.
#[derive(Clone, Copy, Debug)]
pub struct HouseState {
    pub bump: u8,
    /// Who administers the house.
    pub authority: Pubkey,
    /// The asset that is wagered.
    pub mint: Pubkey,
    /// The account that holds the house's liquidity.
    pub house_vault: Pubkey,
    /// The oracle queue that the house requests randomness on.
    pub switchboard_queue: Pubkey,
    /// The asset that requests to the oracle are paid in.
    pub switchboard_mint: Pubkey,
}

} // verus!
