//! The faucet: a small grant to a player who has run low.

use vstd::prelude::*;
use crate::actions::house_init::MINT_DECIMALS;
use crate::error::{AccountError, ActionError, VrfFlipError};
use crate::house::HouseState;
use crate::pubkey::Pubkey;
use crate::round::Clock;
use crate::token::{is_key, mint_to, mint_to_spec, Mint, TokenAccount};
use crate::user::UserState;

verus! {

/// What the faucet grants.
pub const AIRDROP_AMOUNT: u64 = 1_000_000_000;

/// What the faucet grants at slot zero.
pub const INITIAL_AIRDROP_AMOUNT: u64 = 10_000_000_000;

/// How many slots lie between two grants to one player.
pub const AIRDROP_INTERVAL_SLOTS: u64 = 5000;

/// The accounts that a grant is asked with.
#[derive(Clone, Copy, Debug)]
pub struct UserAirdrop {
    /// The address of the player's record.
    pub user_key: Pubkey,
    pub user: UserState,
    /// The address of the house's registry.
    pub house_key: Pubkey,
    pub house: HouseState,
    pub house_vault: TokenAccount,
    pub mint: Mint,
    /// The player.
    pub authority: Pubkey,
    /// The account that receives the grant.
    pub airdrop_token_wallet: TokenAccount,
}

/// A grant takes no parameters.
#[derive(Clone, Copy, Debug, PartialEq, Eq, Structural)]
pub struct UserAirdropParams {}

impl UserAirdrop {
    /// Whether the accounts belong together, and the first relation that is
    /// broken where they do not: the record names the house and the player;
    /// the house names its vault; the vault holds the asset in the house's
    /// custody; the asset has nine decimals and is issued and frozen by the
    /// house; the wallet holds the house's asset and is the player's.
    pub open spec fn accounts_spec(self) -> Result<(), ActionError> {
        if self.user.house != self.house_key || self.user.authority != self.authority {
            Err(ActionError::Account(AccountError::HasOne))
        } else if self.house.house_vault != self.house_vault.key {
            Err(ActionError::Account(AccountError::HasOne))
        } else if self.house_vault.mint != self.mint.key {
            Err(ActionError::Account(AccountError::TokenMint))
        } else if self.house_vault.owner != self.house_key {
            Err(ActionError::Account(AccountError::TokenOwner))
        } else if self.mint.mint_authority != Some(self.house_key) {
            Err(ActionError::Account(AccountError::MintAuthority))
        } else if self.mint.freeze_authority != Some(self.house_key) {
            Err(ActionError::Account(AccountError::MintFreezeAuthority))
        } else if self.mint.decimals != MINT_DECIMALS {
            Err(ActionError::Account(AccountError::MintDecimals))
        } else if self.airdrop_token_wallet.mint != self.house.mint {
            Err(ActionError::Account(AccountError::TokenMint))
        } else if self.airdrop_token_wallet.owner != self.authority {
            Err(ActionError::Account(AccountError::TokenOwner))
        } else {
            Ok(())
        }
    }

    /// Checks that the accounts belong together.
    pub fn check_accounts(&self) -> (checked: Result<(), ActionError>)
        ensures
            checked == self.accounts_spec(),
    {
        if self.user.house != self.house_key || self.user.authority != self.authority {
            return Err(ActionError::Account(AccountError::HasOne));
        }
        if self.house.house_vault != self.house_vault.key {
            return Err(ActionError::Account(AccountError::HasOne));
        }
        if self.house_vault.mint != self.mint.key {
            return Err(ActionError::Account(AccountError::TokenMint));
        }
        if self.house_vault.owner != self.house_key {
            return Err(ActionError::Account(AccountError::TokenOwner));
        }
        if !is_key(&self.mint.mint_authority, &self.house_key) {
            return Err(ActionError::Account(AccountError::MintAuthority));
        }
        if !is_key(&self.mint.freeze_authority, &self.house_key) {
            return Err(ActionError::Account(AccountError::MintFreezeAuthority));
        }
        if self.mint.decimals != MINT_DECIMALS {
            return Err(ActionError::Account(AccountError::MintDecimals));
        }
        if self.airdrop_token_wallet.mint != self.house.mint {
            return Err(ActionError::Account(AccountError::TokenMint));
        }
        if self.airdrop_token_wallet.owner != self.authority {
            return Err(ActionError::Account(AccountError::TokenOwner));
        }
        Ok(())
    }

    /// The slot before which a player who was granted at `last` is not granted
    /// again: none where the interval has not yet passed since slot zero.
    pub open spec fn earliest_grant(slot: u64) -> int {
        if slot >= AIRDROP_INTERVAL_SLOTS {
            slot - AIRDROP_INTERVAL_SLOTS
        } else {
            0
        }
    }

    /// Whether a grant is acceptable, and the first reason why it is not. A
    /// player who was never granted is granted. Any other waits out the
    /// interval, and is refused while the wallet holds more than one grant.
    pub open spec fn validate_spec(self, clock: Clock) -> Result<(), VrfFlipError> {
        if self.user.last_airdrop_request_slot == 0 {
            Ok(())
        } else if self.user.last_airdrop_request_slot > UserAirdrop::earliest_grant(clock.slot) {
            Err(VrfFlipError::AirdropRequestedTooSoon)
        } else if self.airdrop_token_wallet.amount > AIRDROP_AMOUNT {
            Err(VrfFlipError::UserTokenBalanceHealthy)
        } else {
            Ok(())
        }
    }

    /// Checks that a grant is acceptable.
    pub fn validate(&self, clock: &Clock, _params: &UserAirdropParams) -> (checked: Result<
        (),
        VrfFlipError,
    >)
        ensures
            checked == self.validate_spec(*clock),
    {
        if self.user.last_airdrop_request_slot == 0 {
            return Ok(());
        }
        let earliest: u64 = match clock.slot.checked_sub(AIRDROP_INTERVAL_SLOTS) {
            Some(slot) => slot,
            None => 0,
        };
        if self.user.last_airdrop_request_slot > earliest {
            return Err(VrfFlipError::AirdropRequestedTooSoon);
        }
        if self.airdrop_token_wallet.amount > AIRDROP_AMOUNT {
            return Err(VrfFlipError::UserTokenBalanceHealthy);
        }
        Ok(())
    }

    /// What is granted at `slot`.
    pub open spec fn grant_at(slot: u64) -> u64 {
        if slot == 0 {
            INITIAL_AIRDROP_AMOUNT
        } else {
            AIRDROP_AMOUNT
        }
    }

    /// What a grant does: the record notes the slot, and the grant is issued
    /// into the wallet on the house's word.
    pub open spec fn actuate_spec(self, clock: Clock) -> Result<(UserAirdrop, u64), ActionError> {
        match mint_to_spec(
            self.mint,
            self.airdrop_token_wallet,
            self.house_key,
            UserAirdrop::grant_at(clock.slot),
        ) {
            Err(e) => Err(ActionError::Token(e)),
            Ok((mint, wallet)) => Ok(
                (
                    UserAirdrop {
                        user: UserState { last_airdrop_request_slot: clock.slot, ..self.user },
                        mint,
                        airdrop_token_wallet: wallet,
                        ..self
                    },
                    UserAirdrop::grant_at(clock.slot),
                ),
            ),
        }
    }

    /// Makes the grant and returns its amount. On an error nothing has
    /// changed.
    pub fn actuate(&mut self, clock: &Clock, _params: &UserAirdropParams) -> (granted: Result<
        u64,
        ActionError,
    >)
        ensures
            match old(self).actuate_spec(*clock) {
                Ok((next, amount)) => granted == Ok::<u64, ActionError>(amount) && *final(self)
                    == next,
                Err(e) => granted == Err::<u64, ActionError>(e) && *final(self) == *old(self),
            },
    {
        let mut airdrop_amount: u64 = AIRDROP_AMOUNT;
        if clock.slot == 0 {
            airdrop_amount = INITIAL_AIRDROP_AMOUNT;
        }
        let mut mint = self.mint;
        let mut wallet = self.airdrop_token_wallet;
        match mint_to(&mut mint, &mut wallet, &self.house_key, airdrop_amount) {
            Ok(()) => {},
            Err(e) => {
                return Err(ActionError::Token(e));
            },
        }
        self.user.last_airdrop_request_slot = clock.slot;
        self.mint = mint;
        self.airdrop_token_wallet = wallet;
        Ok(airdrop_amount)
    }
}

} // verus!
