//! Placing a bet: the checks, the funding of the escrow, the request for
//! randomness and the new round.

use vstd::prelude::*;
use crate::error::{AccountError, ActionError, VrfFlipError};
use crate::events::UserBetPlaced;
use crate::game::GameType;
use crate::house::HouseState;
use crate::oracle::{OracleQueue, VrfAccount};
use crate::pubkey::Pubkey;
use crate::history::MAX_HISTORY;
use crate::round::{Clock, Round};
use crate::token::{transfer, transfer_spec, TokenAccount, TokenError};
use crate::user::{
    RequestRandomness, RequestRandomnessAccounts, RequestRandomnessBumps, UserState,
    VrfRequestRandomness,
};

verus! {

/// The largest wager the house takes.
pub const MAX_BET_AMOUNT: u64 = 100_000_000_000;

/// What one request for randomness costs, in the oracle's asset.
pub const VRF_REQUEST_COST: u64 = 2_000_000;

/// How many seconds a player waits between two bets.
pub const BET_COOLDOWN_SECONDS: i64 = 10;

/// How many times its size the house's liquidity must cover a wager.
pub const VAULT_COVER_FACTOR: u64 = 10;

/// The accounts that a bet is placed with.
#[derive(Clone, Copy, Debug)]
pub struct UserBet {
    /// The address of the player's record.
    pub user_key: Pubkey,
    pub user: UserState,
    /// The address of the house's registry.
    pub house_key: Pubkey,
    pub house: HouseState,
    pub house_vault: TokenAccount,
    /// The player, who signs the bet.
    pub authority: Pubkey,
    pub escrow: TokenAccount,
    pub vrf: VrfAccount,
    pub oracle_queue: OracleQueue,
    pub queue_authority: Pubkey,
    pub data_buffer: Pubkey,
    pub permission: Pubkey,
    /// The account that holds the prepaid fee of the randomness account.
    pub vrf_escrow: TokenAccount,
    pub switchboard_program_state: Pubkey,
    pub switchboard_program: Pubkey,
    /// Who pays the wager and the oracle's fee.
    pub payer: Pubkey,
    /// The payer's account in the oracle's asset.
    pub vrf_payer: TokenAccount,
    /// The payer's account in the house's asset.
    pub flip_payer: TokenAccount,
    pub recent_blockhashes: Pubkey,
    pub token_program: Pubkey,
}

/// What a player asks for with a bet.
#[derive(Clone, Copy, Debug, PartialEq, Eq, Structural)]
pub struct UserBetParams {
    pub game_type: u32,
    pub user_guess: u32,
    pub bet_amount: u64,
}

/// What is to be done outside the engine once a bet is accepted, in this
/// order: the move of value into the escrow, unless it is zero; the request
/// to the oracle; the report.
#[derive(Clone, Copy, Debug)]
pub struct BetPlaced {
    /// What moves from the payer into the escrow.
    pub escrow_transfer_amount: u64,
    pub request: VrfRequestRandomness,
    pub event: UserBetPlaced,
}

/// The funds at hand for the oracle's fee: what the payer and the randomness
/// account's escrow hold together, counted as nothing where the sum exceeds
/// the largest amount.
pub open spec fn fee_funds(payer_amount: u64, escrow_amount: u64) -> int {
    if payer_amount + escrow_amount > u64::MAX {
        0
    } else {
        payer_amount + escrow_amount
    }
}

/// What is missing in the escrow for a wager of `required`.
pub open spec fn escrow_shortfall(escrow_amount: u64, required: u64) -> int {
    if escrow_amount >= required {
        0
    } else {
        required - escrow_amount
    }
}

/// What `fund_escrow` does to the payer's account and the escrow, or why it
/// refuses: nothing where the escrow holds the wager already, else the
/// transfer of what is missing.
pub open spec fn fund_escrow_spec(
    payer: TokenAccount,
    escrow: TokenAccount,
    authority: Pubkey,
    required: u64,
) -> Result<(TokenAccount, TokenAccount), TokenError> {
    if escrow.amount >= required {
        Ok((payer, escrow))
    } else {
        transfer_spec(payer, escrow, authority, (required - escrow.amount) as u64)
    }
}

/// Tops the escrow up to `required` from the payer's account, on the word of
/// `authority`, and returns what was moved. Where the escrow holds that much
/// already, nothing moves.
pub fn fund_escrow(
    payer: &mut TokenAccount,
    escrow: &mut TokenAccount,
    authority: &Pubkey,
    required: u64,
) -> (moved: Result<u64, TokenError>)
    ensures
        match fund_escrow_spec(*old(payer), *old(escrow), *authority, required) {
            Ok((p, e)) => {
                &&& moved == Ok::<u64, TokenError>(
                    escrow_shortfall(old(escrow).amount, required) as u64,
                )
                &&& *final(payer) == p
                &&& *final(escrow) == e
            },
            Err(e) => {
                &&& moved == Err::<u64, TokenError>(e)
                &&& *final(payer) == *old(payer)
                &&& *final(escrow) == *old(escrow)
            },
        },
{
    if escrow.amount >= required {
        Ok(0)
    } else {
        let escrow_transfer_amount: u64 = required - escrow.amount;
        match transfer(payer, escrow, authority, escrow_transfer_amount) {
            Ok(()) => Ok(escrow_transfer_amount),
            Err(e) => Err(e),
        }
    }
}

/// Funding the escrow twice for the same wager moves value at most once: after
/// a first funding that was carried out, the escrow holds the wager or what it
/// held before, whichever is more, and a second funding is carried out and
/// changes nothing. This is said of a payer's account that is another account
/// than the escrow: the ledger moves nothing from an account to itself.
pub proof fn lemma_fund_escrow_idempotent(
    payer: TokenAccount,
    escrow: TokenAccount,
    authority: Pubkey,
    required: u64,
)
    requires
        fund_escrow_spec(payer, escrow, authority, required) is Ok,
        payer.key != escrow.key,
    ensures
        ({
            let once = fund_escrow_spec(payer, escrow, authority, required)->Ok_0;
            &&& once.1.amount == if escrow.amount >= required {
                escrow.amount
            } else {
                required
            }
            &&& once.0.amount + once.1.amount == payer.amount + escrow.amount
            &&& fund_escrow_spec(once.0, once.1, authority, required) == Ok::<
                (TokenAccount, TokenAccount),
                TokenError,
            >(once)
        }),
{
}

impl UserBet {
    /// Whether the accounts belong together, and the first relation that is
    /// broken where they do not: the record names the randomness account, the
    /// player and the escrow; the house names its vault; vault and escrow hold
    /// the house's asset in the house's custody; the randomness account is
    /// paid from its escrow and answers to the record; the queue names its
    /// buffer and its authority; the fee accounts hold the oracle's asset and
    /// the payer's accounts are the payer's.
    pub open spec fn accounts_spec(self) -> Result<(), ActionError> {
        if self.user.vrf != self.vrf.key || self.user.authority != self.authority
            || self.user.escrow != self.escrow.key {
            Err(ActionError::Account(AccountError::HasOne))
        } else if self.house.house_vault != self.house_vault.key {
            Err(ActionError::Account(AccountError::HasOne))
        } else if self.house_vault.mint != self.house.mint {
            Err(ActionError::Account(AccountError::TokenMint))
        } else if self.house_vault.owner != self.house_key {
            Err(ActionError::Account(AccountError::TokenOwner))
        } else if self.escrow.mint != self.house.mint {
            Err(ActionError::Account(AccountError::TokenMint))
        } else if self.escrow.owner != self.house_key {
            Err(ActionError::Account(AccountError::TokenOwner))
        } else if self.vrf.escrow != self.vrf_escrow.key || self.vrf.authority != self.user_key {
            Err(ActionError::Account(AccountError::Raw))
        } else if self.oracle_queue.data_buffer != self.data_buffer {
            Err(ActionError::Account(AccountError::HasOne))
        } else if self.oracle_queue.authority != self.queue_authority {
            Err(ActionError::Account(AccountError::Raw))
        } else if self.vrf_escrow.mint != self.house.switchboard_mint {
            Err(ActionError::Account(AccountError::TokenMint))
        } else if self.vrf_escrow.owner != self.switchboard_program_state {
            Err(ActionError::Account(AccountError::TokenOwner))
        } else if self.vrf_payer.mint != self.house.switchboard_mint {
            Err(ActionError::Account(AccountError::TokenMint))
        } else if self.vrf_payer.owner != self.payer {
            Err(ActionError::Account(AccountError::TokenOwner))
        } else if self.flip_payer.mint != self.house.mint {
            Err(ActionError::Account(AccountError::TokenMint))
        } else if self.flip_payer.owner != self.payer {
            Err(ActionError::Account(AccountError::TokenOwner))
        } else {
            Ok(())
        }
    }

    /// Checks that the accounts belong together.
    pub fn check_accounts(&self) -> (checked: Result<(), ActionError>)
        ensures
            checked == self.accounts_spec(),
    {
        if self.user.vrf != self.vrf.key || self.user.authority != self.authority
            || self.user.escrow != self.escrow.key {
            return Err(ActionError::Account(AccountError::HasOne));
        }
        if self.house.house_vault != self.house_vault.key {
            return Err(ActionError::Account(AccountError::HasOne));
        }
        if self.house_vault.mint != self.house.mint {
            return Err(ActionError::Account(AccountError::TokenMint));
        }
        if self.house_vault.owner != self.house_key {
            return Err(ActionError::Account(AccountError::TokenOwner));
        }
        if self.escrow.mint != self.house.mint {
            return Err(ActionError::Account(AccountError::TokenMint));
        }
        if self.escrow.owner != self.house_key {
            return Err(ActionError::Account(AccountError::TokenOwner));
        }
        if self.vrf.escrow != self.vrf_escrow.key || self.vrf.authority != self.user_key {
            return Err(ActionError::Account(AccountError::Raw));
        }
        if self.oracle_queue.data_buffer != self.data_buffer {
            return Err(ActionError::Account(AccountError::HasOne));
        }
        if self.oracle_queue.authority != self.queue_authority {
            return Err(ActionError::Account(AccountError::Raw));
        }
        if self.vrf_escrow.mint != self.house.switchboard_mint {
            return Err(ActionError::Account(AccountError::TokenMint));
        }
        if self.vrf_escrow.owner != self.switchboard_program_state {
            return Err(ActionError::Account(AccountError::TokenOwner));
        }
        if self.vrf_payer.mint != self.house.switchboard_mint {
            return Err(ActionError::Account(AccountError::TokenMint));
        }
        if self.vrf_payer.owner != self.payer {
            return Err(ActionError::Account(AccountError::TokenOwner));
        }
        if self.flip_payer.mint != self.house.mint {
            return Err(ActionError::Account(AccountError::TokenMint));
        }
        if self.flip_payer.owner != self.payer {
            return Err(ActionError::Account(AccountError::TokenOwner));
        }
        Ok(())
    }

    /// Whether the bet is acceptable, and the first reason why it is not. In
    /// this order: no round is live; the game exists; the guess is an outcome
    /// of the game; the house's liquidity covers ten times the wager and the
    /// wager is within the limit; the cooldown since the last bet is over; the
    /// payer holds the wager; the oracle's fee is at hand.
    pub open spec fn validate_spec(self, clock: Clock, params: UserBetParams) -> Result<
        (),
        VrfFlipError,
    > {
        let round = self.user.current_round;
        if round.live_at(clock.unix_timestamp as int) {
            Err(VrfFlipError::CurrentRoundStillActive)
        } else {
            match GameType::config_of_u32(params.game_type) {
                None => Err(VrfFlipError::InvalidGameType),
                Some(config) => {
                    if !config.admits(params.user_guess) {
                        Err(VrfFlipError::InvalidBet)
                    } else if params.bet_amount * VAULT_COVER_FACTOR > self.house_vault.amount
                        || params.bet_amount > MAX_BET_AMOUNT {
                        Err(VrfFlipError::MaxBetAmountExceeded)
                    } else if round.request_timestamp != 0 && clock.unix_timestamp
                        - BET_COOLDOWN_SECONDS < round.request_timestamp {
                        Err(VrfFlipError::FlipRequestedTooSoon)
                    } else if self.flip_payer.amount < params.bet_amount {
                        Err(VrfFlipError::InsufficientFunds)
                    } else if fee_funds(self.vrf_payer.amount, self.vrf_escrow.amount)
                        < VRF_REQUEST_COST {
                        Err(VrfFlipError::InsufficientFunds)
                    } else {
                        Ok(())
                    }
                },
            }
        }
    }

    /// Checks that the bet is acceptable.
    pub fn validate(&self, clock: &Clock, params: &UserBetParams) -> (checked: Result<
        (),
        VrfFlipError,
    >)
        ensures
            checked == self.validate_spec(*clock, *params),
    {
        if self.user.current_round.is_open(clock) {
            return Err(VrfFlipError::CurrentRoundStillActive);
        }
        let game_type = match GameType::from_u32(params.game_type) {
            Ok(game) => game,
            Err(e) => {
                return Err(e);
            },
        };
        let game_config = match game_type.get_game_config() {
            Ok(config) => config,
            Err(e) => {
                return Err(e);
            },
        };
        if params.user_guess < game_config.min || params.user_guess > game_config.max {
            return Err(VrfFlipError::InvalidBet);
        }
        let house_vault_balance: u64 = self.house_vault.amount;
        if (params.bet_amount as u128) * (VAULT_COVER_FACTOR as u128) > (
        house_vault_balance as u128) || params.bet_amount > MAX_BET_AMOUNT {
            return Err(VrfFlipError::MaxBetAmountExceeded);
        }
        if self.user.current_round.request_timestamp != 0 && (clock.unix_timestamp as i128) - (
        BET_COOLDOWN_SECONDS as i128) < (self.user.current_round.request_timestamp as i128) {
            return Err(VrfFlipError::FlipRequestedTooSoon);
        }
        if self.flip_payer.amount < params.bet_amount {
            return Err(VrfFlipError::InsufficientFunds);
        }
        let combined_balance: u64 = match self.vrf_payer.amount.checked_add(
            self.vrf_escrow.amount,
        ) {
            Some(sum) => sum,
            None => 0,
        };
        if combined_balance < VRF_REQUEST_COST {
            return Err(VrfFlipError::InsufficientFunds);
        }
        Ok(())
    }

    /// What the record needs to know to request randomness with these
    /// accounts.
    pub open spec fn randomness_context(self) -> RequestRandomness {
        RequestRandomness {
            switchboard_program: self.switchboard_program,
            house: self.house_key,
            authority: self.authority,
            bumps: RequestRandomnessBumps {
                user: self.user.bump,
                switchboard_state: self.user.switchboard_state_bump,
                vrf_permission: self.user.vrf_permission_bump,
            },
            accounts: RequestRandomnessAccounts {
                user: self.user_key,
                vrf: self.vrf.key,
                oracle_queue: self.oracle_queue.key,
                queue_authority: self.queue_authority,
                data_buffer: self.data_buffer,
                permission: self.permission,
                vrf_escrow: self.vrf_escrow.key,
                vrf_payer: self.vrf_payer.key,
                payer_authority: self.payer,
                recent_blockhashes: self.recent_blockhashes,
                switchboard_program_state: self.switchboard_program_state,
                token_program: self.token_program,
            },
        }
    }

    /// The report of a bet placed with these accounts. It carries the number
    /// of the round that the bet opens: one more than the number of the round
    /// before it.
    pub open spec fn bet_event(self, game: GameType, clock: Clock, params: UserBetParams)
        -> UserBetPlaced {
        UserBetPlaced {
            round_id: (self.user.current_round.round_id + 1) as u128,
            user: self.user_key,
            game_type: game,
            bet_amount: params.bet_amount,
            guess: params.user_guess,
            slot: clock.slot,
            timestamp: clock.unix_timestamp,
        }
    }

    /// What placing the bet does: the accounts afterwards and what is to be
    /// done outside, or the reason why nothing is done. The escrow is funded
    /// first; then the round is opened for the game that `params` names.
    pub open spec fn actuate_spec(self, clock: Clock, params: UserBetParams) -> Result<
        (UserBet, BetPlaced),
        ActionError,
    > {
        match fund_escrow_spec(self.flip_payer, self.escrow, self.authority, params.bet_amount) {
            Err(e) => Err(ActionError::Token(e)),
            Ok((payer, escrow)) => match GameType::of_u32(params.game_type) {
                None => Err(ActionError::Flip(VrfFlipError::InvalidGameType)),
                Some(game) => match game.config() {
                    None => Err(ActionError::Flip(VrfFlipError::InvalidGameType)),
                    Some(config) => Ok(
                        (
                            UserBet {
                                flip_payer: payer,
                                escrow,
                                user: self.user.with_new_round(
                                    game,
                                    config,
                                    params.user_guess,
                                    params.bet_amount,
                                    clock,
                                ),
                                ..self
                            },
                            BetPlaced {
                                escrow_transfer_amount: escrow_shortfall(
                                    self.escrow.amount,
                                    params.bet_amount,
                                ) as u64,
                                request: UserState::randomness_request(self.randomness_context()),
                                event: self.bet_event(game, clock, params),
                            },
                        ),
                    ),
                },
            },
        }
    }

    /// Whether `actuate` can run: the record can open a round, where the bet
    /// gets that far.
    pub open spec fn can_actuate(self, params: UserBetParams) -> bool {
        fund_escrow_spec(self.flip_payer, self.escrow, self.authority, params.bet_amount) is Ok
            ==> (GameType::of_u32(params.game_type) matches Some(game)
            ==> self.user.can_open_round(game))
    }

    /// Tests whether `actuate` can run within the range of the machine's
    /// numbers.
    pub fn within_limits(&self, params: &UserBetParams) -> (ok: bool)
        ensures
            ok == self.can_actuate(*params),
    {
        let mut flip_payer = self.flip_payer;
        let mut escrow = self.escrow;
        if fund_escrow(&mut flip_payer, &mut escrow, &self.authority, params.bet_amount).is_err() {
            return true;
        }
        match GameType::from_u32(params.game_type) {
            Err(_) => true,
            Ok(game) => {
                let round = self.user.current_round;
                let reads_history = round != Round::default();
                let opens_round = game.get_game_config().is_ok();
                (!reads_history || self.user.history.idx < MAX_HISTORY) && (!opens_round
                    || round.round_id < u128::MAX)
            },
        }
    }

    /// Places the bet: funds the escrow, makes the request for randomness and
    /// opens the round. On an error nothing has changed.
    pub fn actuate(&mut self, clock: &Clock, params: &UserBetParams) -> (placed: Result<
        BetPlaced,
        ActionError,
    >)
        requires
            old(self).can_actuate(*params),
        ensures
            match old(self).actuate_spec(*clock, *params) {
                Ok((next, plan)) => {
                    &&& placed == Ok::<BetPlaced, ActionError>(plan)
                    &&& *final(self) == next
                },
                Err(e) => {
                    &&& placed == Err::<BetPlaced, ActionError>(e)
                    &&& *final(self) == *old(self)
                },
            },
    {
        let mut flip_payer = self.flip_payer;
        let mut escrow = self.escrow;
        let escrow_transfer_amount = match fund_escrow(
            &mut flip_payer,
            &mut escrow,
            &self.authority,
            params.bet_amount,
        ) {
            Ok(moved) => moved,
            Err(e) => {
                return Err(ActionError::Token(e));
            },
        };

        let request = UserState::request_randomness(
            &RequestRandomness {
                switchboard_program: self.switchboard_program,
                house: self.house_key,
                authority: self.authority,
                bumps: RequestRandomnessBumps {
                    user: self.user.bump,
                    switchboard_state: self.user.switchboard_state_bump,
                    vrf_permission: self.user.vrf_permission_bump,
                },
                accounts: RequestRandomnessAccounts {
                    user: self.user_key,
                    vrf: self.vrf.key,
                    oracle_queue: self.oracle_queue.key,
                    queue_authority: self.queue_authority,
                    data_buffer: self.data_buffer,
                    permission: self.permission,
                    vrf_escrow: self.vrf_escrow.key,
                    vrf_payer: self.vrf_payer.key,
                    payer_authority: self.payer,
                    recent_blockhashes: self.recent_blockhashes,
                    switchboard_program_state: self.switchboard_program_state,
                    token_program: self.token_program,
                },
            },
        );

        let game_type = match GameType::from_u32(params.game_type) {
            Ok(game) => game,
            Err(e) => {
                return Err(ActionError::Flip(e));
            },
        };
        let mut user = self.user;
        match user.new_round(game_type, params.user_guess, params.bet_amount, clock) {
            Ok(()) => {},
            Err(e) => {
                return Err(ActionError::Flip(e));
            },
        }

        let event = UserBetPlaced {
            round_id: user.current_round.round_id,
            user: self.user_key,
            game_type,
            bet_amount: params.bet_amount,
            guess: params.user_guess,
            slot: clock.slot,
            timestamp: clock.unix_timestamp,
        };
        self.flip_payer = flip_payer;
        self.escrow = escrow;
        self.user = user;
        Ok(BetPlaced { escrow_transfer_amount, request, event })
    }
}

} // verus!
