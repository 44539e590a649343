//! Admitting a player: the record, the custody of the escrow and the first
//! grant.

use vstd::prelude::*;
use crate::actions::house_init::MINT_DECIMALS;
use crate::error::{AccountError, ActionError, VrfFlipError};
use crate::history::History;
use crate::house::HouseState;
use crate::oracle::VrfAccount;
use crate::pubkey::Pubkey;
use crate::round::Round;
use crate::token::{
    is_key, mint_to, mint_to_spec, set_close_authority, set_close_authority_spec, set_owner,
    set_owner_spec, Mint, TokenAccount,
};
use crate::user::UserState;

verus! {

/// What a player is granted on admission.
pub const INITIAL_GRANT: u64 = 10_000_000_000;

/// The accounts that a player is admitted with.
#[derive(Clone, Copy, Debug)]
pub struct UserInit {
    /// The address of the player's record.
    pub user_key: Pubkey,
    /// The bump of that address.
    pub user_bump: u8,
    /// The record, which the operation fills in.
    pub user: UserState,
    /// The address of the house's registry.
    pub house_key: Pubkey,
    pub house: HouseState,
    pub mint: Mint,
    /// The player.
    pub authority: Pubkey,
    pub escrow: TokenAccount,
    pub reward_address: TokenAccount,
    pub vrf: VrfAccount,
    pub payer: Pubkey,
}

/// The bumps of the oracle's accounts that the player's requests will carry.
#[derive(Clone, Copy, Debug, PartialEq, Eq, Structural)]
pub struct UserInitParams {
    pub switchboard_state_bump: u8,
    pub vrf_permission_bump: u8,
}

impl UserInit {
    /// Whether the accounts belong together, and the first relation that is
    /// broken where they do not: the house deals in the asset; the asset has
    /// nine decimals and is issued and frozen by the house; escrow and reward
    /// account hold the asset and are the player's; the randomness account
    /// answers to the record and is served by the house's queue.
    pub open spec fn accounts_spec(self) -> Result<(), ActionError> {
        if self.house.mint != self.mint.key {
            Err(ActionError::Account(AccountError::HasOne))
        } else if self.mint.mint_authority != Some(self.house_key) {
            Err(ActionError::Account(AccountError::MintAuthority))
        } else if self.mint.freeze_authority != Some(self.house_key) {
            Err(ActionError::Account(AccountError::MintFreezeAuthority))
        } else if self.mint.decimals != MINT_DECIMALS {
            Err(ActionError::Account(AccountError::MintDecimals))
        } else if self.escrow.mint != self.mint.key {
            Err(ActionError::Account(AccountError::TokenMint))
        } else if self.escrow.owner != self.authority {
            Err(ActionError::Account(AccountError::TokenOwner))
        } else if self.reward_address.mint != self.mint.key {
            Err(ActionError::Account(AccountError::TokenMint))
        } else if self.reward_address.owner != self.authority {
            Err(ActionError::Account(AccountError::TokenOwner))
        } else if self.vrf.authority != self.user_key || self.vrf.oracle_queue
            != self.house.switchboard_queue {
            Err(ActionError::Flip(VrfFlipError::OracleQueueMismatch))
        } else {
            Ok(())
        }
    }

    /// Checks that the accounts belong together.
    pub fn check_accounts(&self) -> (checked: Result<(), ActionError>)
        ensures
            checked == self.accounts_spec(),
    {
        if self.house.mint != self.mint.key {
            return Err(ActionError::Account(AccountError::HasOne));
        }
        if !is_key(&self.mint.mint_authority, &self.house_key) {
            return Err(ActionError::Account(AccountError::MintAuthority));
        }
        if !is_key(&self.mint.freeze_authority, &self.house_key) {
            return Err(ActionError::Account(AccountError::MintFreezeAuthority));
        }
        if self.mint.decimals != MINT_DECIMALS {
            return Err(ActionError::Account(AccountError::MintDecimals));
        }
        if self.escrow.mint != self.mint.key {
            return Err(ActionError::Account(AccountError::TokenMint));
        }
        if self.escrow.owner != self.authority {
            return Err(ActionError::Account(AccountError::TokenOwner));
        }
        if self.reward_address.mint != self.mint.key {
            return Err(ActionError::Account(AccountError::TokenMint));
        }
        if self.reward_address.owner != self.authority {
            return Err(ActionError::Account(AccountError::TokenOwner));
        }
        if self.vrf.authority != self.user_key || self.vrf.oracle_queue
            != self.house.switchboard_queue {
            return Err(ActionError::Flip(VrfFlipError::OracleQueueMismatch));
        }
        Ok(())
    }

    /// A player is admitted with a randomness account that has served no
    /// request yet and answers to the player's record.
    pub open spec fn validate_spec(self) -> Result<(), VrfFlipError> {
        if self.vrf.counter != 0 {
            Err(VrfFlipError::InvalidInitialVrfCounter)
        } else if self.vrf.authority != self.user_key {
            Err(VrfFlipError::InvalidVrfAuthority)
        } else {
            Ok(())
        }
    }

    /// Checks the randomness account.
    pub fn validate(&self, _params: &UserInitParams) -> (checked: Result<(), VrfFlipError>)
        ensures
            checked == self.validate_spec(),
    {
        if self.vrf.counter != 0 {
            return Err(VrfFlipError::InvalidInitialVrfCounter);
        }
        if self.vrf.authority != self.user_key {
            return Err(VrfFlipError::InvalidVrfAuthority);
        }
        Ok(())
    }

    /// The record that the operation writes: bound to the player, the house,
    /// the escrow, the reward account and the randomness account, with no
    /// round played and an empty history.
    pub open spec fn record(self, params: UserInitParams) -> UserState {
        UserState {
            bump: self.user_bump,
            authority: self.authority,
            house: self.house_key,
            escrow: self.escrow.key,
            reward_address: self.reward_address.key,
            vrf: self.vrf.key,
            switchboard_state_bump: params.switchboard_state_bump,
            vrf_permission_bump: params.vrf_permission_bump,
            current_round: Round::zeroed(),
            last_airdrop_request_slot: 0,
            history: History::empty(),
        }
    }

    /// What the operation does to the escrow: the player hands it over to the
    /// house, and the house removes its close authority.
    pub open spec fn escrow_spec(self) -> Result<TokenAccount, ActionError> {
        match set_owner_spec(self.escrow, self.authority, self.house_key) {
            Err(e) => Err(ActionError::Token(e)),
            Ok(handed) => match set_close_authority_spec(handed, self.house_key, None) {
                Err(e) => Err(ActionError::Token(e)),
                Ok(escrow) => Ok(escrow),
            },
        }
    }

    /// What admitting the player does: the record is written; the escrow
    /// passes into the house's custody and loses its close authority; so does
    /// the reward account lose its close authority, on the player's word; and
    /// the first grant is issued into the reward account on the house's word.
    pub open spec fn actuate_spec(self, params: UserInitParams) -> Result<UserInit, ActionError> {
        match self.escrow_spec() {
            Err(e) => Err(e),
            Ok(escrow) => match set_close_authority_spec(
                self.reward_address,
                self.authority,
                None,
            ) {
                Err(e) => Err(ActionError::Token(e)),
                Ok(reward) => match mint_to_spec(self.mint, reward, self.house_key, INITIAL_GRANT) {
                    Err(e) => Err(ActionError::Token(e)),
                    Ok((mint, reward)) => Ok(
                        UserInit {
                            user: self.record(params),
                            escrow,
                            reward_address: reward,
                            mint,
                            ..self
                        },
                    ),
                },
            },
        }
    }

    /// Admits the player. On an error nothing has changed.
    pub fn actuate(&mut self, params: &UserInitParams) -> (done: Result<(), ActionError>)
        ensures
            match old(self).actuate_spec(*params) {
                Ok(next) => done == Ok::<(), ActionError>(()) && *final(self) == next,
                Err(e) => done == Err::<(), ActionError>(e) && *final(self) == *old(self),
            },
    {
        let user = UserState {
            bump: self.user_bump,
            authority: self.authority,
            house: self.house_key,
            escrow: self.escrow.key,
            reward_address: self.reward_address.key,
            vrf: self.vrf.key,
            switchboard_state_bump: params.switchboard_state_bump,
            vrf_permission_bump: params.vrf_permission_bump,
            current_round: Round::default(),
            last_airdrop_request_slot: 0,
            history: History::default(),
        };

        let mut escrow = self.escrow;
        let mut reward_address = self.reward_address;
        let mut mint = self.mint;
        match set_owner(&mut escrow, &self.authority, self.house_key) {
            Ok(()) => {},
            Err(e) => {
                return Err(ActionError::Token(e));
            },
        }
        match set_close_authority(&mut escrow, &self.house_key, None) {
            Ok(()) => {},
            Err(e) => {
                return Err(ActionError::Token(e));
            },
        }
        match set_close_authority(&mut reward_address, &self.authority, None) {
            Ok(()) => {},
            Err(e) => {
                return Err(ActionError::Token(e));
            },
        }
        match mint_to(&mut mint, &mut reward_address, &self.house_key, INITIAL_GRANT) {
            Ok(()) => {},
            Err(e) => {
                return Err(ActionError::Token(e));
            },
        }
        self.user = user;
        self.escrow = escrow;
        self.reward_address = reward_address;
        self.mint = mint;
        Ok(())
    }
}

/// After a player is admitted, the house has the custody of the escrow, and
/// neither the escrow nor the reward account has a close authority; the record
/// names both accounts.
pub proof fn lemma_admission_gives_house_custody(accounts: UserInit, params: UserInitParams)
    ensures
        accounts.actuate_spec(params) matches Ok(after) ==> {
            &&& after.escrow.owner == accounts.house_key
            &&& after.escrow.close_authority is None
            &&& after.reward_address.close_authority is None
            &&& after.escrow.amount == accounts.escrow.amount
            &&& after.user.escrow == after.escrow.key
            &&& after.user.reward_address == after.reward_address.key
            &&& after.user.current_round == Round::zeroed()
            &&& after.user.history.wf()
            &&& after.reward_address.amount == accounts.reward_address.amount + INITIAL_GRANT
        },
{
}

} // verus!
