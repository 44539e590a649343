//! Opening the house: its registry, its asset and its vault.

use vstd::prelude::*;
use crate::error::{AccountError, ActionError, VrfFlipError};
use crate::house::HouseState;
use crate::oracle::OracleQueue;
use crate::pubkey::Pubkey;
use crate::token::{is_key, mint_to, mint_to_spec, Mint, TokenAccount};

verus! {

/// What the house's vault is endowed with when the house opens.
pub const HOUSE_ENDOWMENT: u64 = 100_000_000_000_000_000;

/// How many decimals the house's asset has.
pub const MINT_DECIMALS: u8 = 9;

/// The accounts that the house is opened with.
#[derive(Clone, Copy, Debug)]
pub struct HouseInit {
    /// The address of the house's registry.
    pub house_key: Pubkey,
    /// The bump of that address.
    pub house_bump: u8,
    /// The registry, which the operation fills in.
    pub house: HouseState,
    /// Who is to administer the house.
    pub authority: Pubkey,
    /// The asset that requests to the oracle are paid in.
    pub switchboard_mint: Pubkey,
    pub switchboard_queue: OracleQueue,
    pub mint: Mint,
    pub house_vault: TokenAccount,
    pub payer: Pubkey,
}

/// Opening the house takes no parameters.
#[derive(Clone, Copy, Debug, PartialEq, Eq, Structural)]
pub struct HouseInitParams {}

impl HouseInit {
    /// Whether the accounts belong together, and the first relation that is
    /// broken where they do not: the queue serves randomness without a
    /// permission; the asset has nine decimals and is issued and frozen by the
    /// house; the vault holds that asset in the house's custody.
    pub open spec fn accounts_spec(self) -> Result<(), ActionError> {
        if !self.switchboard_queue.unpermissioned_vrf_enabled {
            Err(ActionError::Flip(VrfFlipError::OracleQueueRequiresPermissions))
        } else if self.mint.mint_authority != Some(self.house_key) {
            Err(ActionError::Account(AccountError::MintAuthority))
        } else if self.mint.freeze_authority != Some(self.house_key) {
            Err(ActionError::Account(AccountError::MintFreezeAuthority))
        } else if self.mint.decimals != MINT_DECIMALS {
            Err(ActionError::Account(AccountError::MintDecimals))
        } else if self.house_vault.mint != self.mint.key {
            Err(ActionError::Account(AccountError::TokenMint))
        } else if self.house_vault.owner != self.house_key {
            Err(ActionError::Account(AccountError::TokenOwner))
        } else {
            Ok(())
        }
    }

    /// Checks that the accounts belong together.
    pub fn check_accounts(&self) -> (checked: Result<(), ActionError>)
        ensures
            checked == self.accounts_spec(),
    {
        if !self.switchboard_queue.unpermissioned_vrf_enabled {
            return Err(ActionError::Flip(VrfFlipError::OracleQueueRequiresPermissions));
        }
        if !is_key(&self.mint.mint_authority, &self.house_key) {
            return Err(ActionError::Account(AccountError::MintAuthority));
        }
        if !is_key(&self.mint.freeze_authority, &self.house_key) {
            return Err(ActionError::Account(AccountError::MintFreezeAuthority));
        }
        if self.mint.decimals != MINT_DECIMALS {
            return Err(ActionError::Account(AccountError::MintDecimals));
        }
        if self.house_vault.mint != self.mint.key {
            return Err(ActionError::Account(AccountError::TokenMint));
        }
        if self.house_vault.owner != self.house_key {
            return Err(ActionError::Account(AccountError::TokenOwner));
        }
        Ok(())
    }

    /// Opening the house is always acceptable.
    pub fn validate(&self, _params: &HouseInitParams) -> (checked: Result<(), VrfFlipError>)
        ensures
            checked == Ok::<(), VrfFlipError>(()),
    {
        Ok(())
    }

    /// The registry that the operation writes.
    pub open spec fn registry(self) -> HouseState {
        HouseState {
            bump: self.house_bump,
            authority: self.authority,
            mint: self.mint.key,
            house_vault: self.house_vault.key,
            switchboard_queue: self.switchboard_queue.key,
            switchboard_mint: self.switchboard_mint,
        }
    }

    /// What opening the house does: the endowment is issued into the vault on
    /// the house's word, and the registry is written.
    pub open spec fn actuate_spec(self) -> Result<HouseInit, ActionError> {
        match mint_to_spec(self.mint, self.house_vault, self.house_key, HOUSE_ENDOWMENT) {
            Err(e) => Err(ActionError::Token(e)),
            Ok((mint, vault)) => Ok(
                HouseInit { mint, house_vault: vault, house: self.registry(), ..self },
            ),
        }
    }

    /// Opens the house. On an error nothing has changed.
    pub fn actuate(&mut self, _params: &HouseInitParams) -> (done: Result<(), ActionError>)
        ensures
            match old(self).actuate_spec() {
                Ok(next) => done == Ok::<(), ActionError>(()) && *final(self) == next,
                Err(e) => done == Err::<(), ActionError>(e) && *final(self) == *old(self),
            },
    {
        let mut mint = self.mint;
        let mut house_vault = self.house_vault;
        match mint_to(&mut mint, &mut house_vault, &self.house_key, HOUSE_ENDOWMENT) {
            Ok(()) => {},
            Err(e) => {
                return Err(ActionError::Token(e));
            },
        }
        self.mint = mint;
        self.house_vault = house_vault;
        self.house = HouseState {
            bump: self.house_bump,
            authority: self.authority,
            mint: self.mint.key,
            house_vault: self.house_vault.key,
            switchboard_queue: self.switchboard_queue.key,
            switchboard_mint: self.switchboard_mint,
        };
        Ok(())
    }
}

} // verus!
