//! A player's record: who they are, which accounts serve them, the round in
//! play and the rounds before it.

use vstd::prelude::*;
use crate::error::VrfFlipError;
use crate::game::{GameConfig, GameType};
use crate::history::History;
use crate::pubkey::Pubkey;
use crate::round::{Clock, Round, RoundStatus};

verus! {

/// The accounts that a request for randomness names, by address.
#[derive(Clone, Copy, Debug)]
pub struct RequestRandomnessAccounts {
    pub user: Pubkey,
    pub vrf: Pubkey,
    pub oracle_queue: Pubkey,
    pub queue_authority: Pubkey,
    pub data_buffer: Pubkey,
    pub permission: Pubkey,
    pub vrf_escrow: Pubkey,
    pub vrf_payer: Pubkey,
    pub payer_authority: Pubkey,
    pub recent_blockhashes: Pubkey,
    pub switchboard_program_state: Pubkey,
    pub token_program: Pubkey,
}

/// The bump seeds that a request for randomness carries.
#[derive(Clone, Copy, Debug, PartialEq, Eq, Structural)]
pub struct RequestRandomnessBumps {
    pub user: u8,
    pub switchboard_state: u8,
    pub vrf_permission: u8,
}

/// What a player's record needs to know to request randomness.
#[derive(Clone, Copy, Debug)]
pub struct RequestRandomness {
    pub switchboard_program: Pubkey,
    pub house: Pubkey,
    pub authority: Pubkey,
    pub bumps: RequestRandomnessBumps,
    pub accounts: RequestRandomnessAccounts,
}

/// The seeds by which a player's record signs: a fixed tag, the house, the
/// player and the record's bump.
#[derive(Clone, Copy, Debug)]
pub struct UserSigner {
    pub house: Pubkey,
    pub authority: Pubkey,
    pub bump: u8,
}

/// The request for randomness as the oracle's program takes it: each account
/// in its role, the two bumps of the oracle's own accounts, and the signer.
#[derive(Clone, Copy, Debug)]
pub struct VrfRequestRandomness {
    pub program: Pubkey,
    /// The consumer of the randomness: the player's record.
    pub authority: Pubkey,
    pub vrf: Pubkey,
    pub oracle_queue: Pubkey,
    pub queue_authority: Pubkey,
    pub data_buffer: Pubkey,
    pub permission: Pubkey,
    /// The account that holds the prepaid fee.
    pub escrow: Pubkey,
    pub payer_wallet: Pubkey,
    pub payer_authority: Pubkey,
    pub recent_blockhashes: Pubkey,
    pub program_state: Pubkey,
    pub token_program: Pubkey,
    pub state_bump: u8,
    pub permission_bump: u8,
    pub signer: UserSigner,
}

/// The tag that starts the seeds of every player's record: the ASCII text
/// `USERSTATESEED`.
pub open spec fn user_seed() -> Seq<u8> {
    seq![
        0x55u8, 0x53u8, 0x45u8, 0x52u8, 0x53u8, 0x54u8, 0x41u8, 0x54u8, 0x45u8, 0x53u8, 0x45u8,
        0x45u8, 0x44u8,
    ]
}

impl UserSigner {
    /// The four seeds as bytes: the tag, the house's address, the player's
    /// address, the bump.
    pub fn seeds(&self) -> (seeds: Vec<Vec<u8>>)
        ensures
            seeds@.len() == 4,
            seeds@[0]@ == user_seed(),
            seeds@[1]@ == self.house.bytes@,
            seeds@[2]@ == self.authority.bytes@,
            seeds@[3]@ == seq![self.bump],
    {
        let tag: Vec<u8> = vec![
            0x55u8, 0x53u8, 0x45u8, 0x52u8, 0x53u8, 0x54u8, 0x41u8, 0x54u8, 0x45u8, 0x53u8,
            0x45u8, 0x45u8, 0x44u8,
        ];
        assert(tag@ =~= user_seed());
        let house = self.house.to_vec();
        let authority = self.authority.to_vec();
        let bump: Vec<u8> = vec![self.bump];
        assert(bump@ =~= seq![self.bump]);
        let mut seeds: Vec<Vec<u8>> = Vec::new();
        seeds.push(tag);
        seeds.push(house);
        seeds.push(authority);
        seeds.push(bump);
        seeds
    }
}

/// The bytes that a stored round takes, its fields one after the other: the
/// number, the status, the wager, the game, the game's four parameters, the
/// guess, the result and the four stamps.
pub const STORED_ROUND_SIZE: usize = 16 + 1 + 8 + 1 + (1 + 4 + 4 + 4) + 4 + 4 + 8 + 8 + 8 + 8;

/// The bytes that a stored history takes: cursor, capacity and 48 rounds.
pub const STORED_HISTORY_SIZE: usize = 4 + 4 + 48 * STORED_ROUND_SIZE;

/// The bytes that a stored record takes: a tag of eight bytes, then the bump,
/// five addresses, two more bumps, the round in play, the slot of the last
/// grant, a reserve of 1024 bytes and the history.
pub const STORED_USER_SIZE: usize = 8 + 1 + 5 * 32 + 2 + STORED_ROUND_SIZE + 8 + 1024
    + STORED_HISTORY_SIZE;

/// The record of one player.
#[derive(Clone, Copy, Debug)]
pub struct UserState {
    pub bump: u8,
    /// The player.
    pub authority: Pubkey,
    /// The house the player plays at.
    pub house: Pubkey,
    /// The account that holds the wager while a round is in play.
    pub escrow: Pubkey,
    /// The account that winnings are paid to.
    pub reward_address: Pubkey,
    /// The randomness account bound to the player.
    pub vrf: Pubkey,
    pub switchboard_state_bump: u8,
    pub vrf_permission_bump: u8,
    /// The round in play, or the last one played.
    pub current_round: Round,
    pub last_airdrop_request_slot: u64,
    pub history: History,
}

impl UserState {
    /// The record with every byte zero, as the ledger hands out a fresh one:
    /// bound to nobody, without a round, and with a history that has neither
    /// rounds nor capacity yet.
    pub open spec fn zeroed() -> UserState {
        UserState {
            bump: 0,
            authority: Pubkey::zero(),
            house: Pubkey::zero(),
            escrow: Pubkey::zero(),
            reward_address: Pubkey::zero(),
            vrf: Pubkey::zero(),
            switchboard_state_bump: 0,
            vrf_permission_bump: 0,
            current_round: Round::zeroed(),
            last_airdrop_request_slot: 0,
            history: History { max: 0, ..History::empty() },
        }
    }

    /// Whether the next bet writes the current round into the history: it
    /// does where the player has played, unless the slot at the cursor
    /// already holds a round with that number.
    pub open spec fn archives_current(self) -> bool {
        self.current_round != Round::zeroed() && self.current_round.round_id
            != self.history.rounds@[self.history.idx as int].round_id
    }

    /// The round that a new bet opens.
    pub open spec fn next_round(
        self,
        game_type: GameType,
        config: GameConfig,
        guess: u32,
        bet_amount: u64,
        clock: Clock,
    ) -> Round {
        Round {
            round_id: (self.current_round.round_id + 1) as u128,
            status: RoundStatus::Awaiting,
            bet_amount,
            game_type,
            game_config: config,
            guess,
            result: 0,
            request_slot: clock.slot,
            request_timestamp: clock.unix_timestamp,
            settle_slot: 0,
            settle_timestamp: 0,
        }
    }

    /// The record after a new bet: the current round is archived where
    /// `archives_current` says so, and the new round takes its place.
    pub open spec fn with_new_round(
        self,
        game_type: GameType,
        config: GameConfig,
        guess: u32,
        bet_amount: u64,
        clock: Clock,
    ) -> UserState {
        UserState {
            history: if self.archives_current() {
                self.history.pushed(self.current_round)
            } else {
                self.history
            },
            current_round: self.next_round(game_type, config, guess, bet_amount, clock),
            ..self
        }
    }

    /// The request for randomness that `ctx` describes.
    pub open spec fn randomness_request(ctx: RequestRandomness) -> VrfRequestRandomness {
        VrfRequestRandomness {
            program: ctx.switchboard_program,
            authority: ctx.accounts.user,
            vrf: ctx.accounts.vrf,
            oracle_queue: ctx.accounts.oracle_queue,
            queue_authority: ctx.accounts.queue_authority,
            data_buffer: ctx.accounts.data_buffer,
            permission: ctx.accounts.permission,
            escrow: ctx.accounts.vrf_escrow,
            payer_wallet: ctx.accounts.vrf_payer,
            payer_authority: ctx.accounts.payer_authority,
            recent_blockhashes: ctx.accounts.recent_blockhashes,
            program_state: ctx.accounts.switchboard_program_state,
            token_program: ctx.accounts.token_program,
            state_bump: ctx.bumps.switchboard_state,
            permission_bump: ctx.bumps.vrf_permission,
            signer: UserSigner { house: ctx.house, authority: ctx.authority, bump: ctx.bumps.user },
        }
    }

    /// The bytes that the record takes where it is stored.
    pub fn size() -> (bytes: usize)
        ensures
            bytes == STORED_USER_SIZE,
            bytes == 5082,
    {
        STORED_USER_SIZE
    }

    /// Makes the request for randomness that is sent to the oracle's program:
    /// the player's record is the consumer and signs it.
    pub fn request_randomness(ctx: &RequestRandomness) -> (request: VrfRequestRandomness)
        ensures
            request == UserState::randomness_request(*ctx),
    {
        VrfRequestRandomness {
            program: ctx.switchboard_program,
            authority: ctx.accounts.user,
            vrf: ctx.accounts.vrf,
            oracle_queue: ctx.accounts.oracle_queue,
            queue_authority: ctx.accounts.queue_authority,
            data_buffer: ctx.accounts.data_buffer,
            permission: ctx.accounts.permission,
            escrow: ctx.accounts.vrf_escrow,
            payer_wallet: ctx.accounts.vrf_payer,
            payer_authority: ctx.accounts.payer_authority,
            recent_blockhashes: ctx.accounts.recent_blockhashes,
            program_state: ctx.accounts.switchboard_program_state,
            token_program: ctx.accounts.token_program,
            state_bump: ctx.bumps.switchboard_state,
            permission_bump: ctx.bumps.vrf_permission,
            signer: UserSigner { house: ctx.house, authority: ctx.authority, bump: ctx.bumps.user },
        }
    }

    /// Whether `new_round` can run on this record for this game: the history's
    /// cursor is in range where the history is read, and the round counter
    /// has room for one more.
    pub open spec fn can_open_round(self, game_type: GameType) -> bool {
        &&& self.current_round != Round::zeroed() ==> self.history.wf()
        &&& game_type.config() is Some ==> self.current_round.round_id < u128::MAX
    }

    /// Opens a round for a bet of `bet_amount` on `guess` in `game_type`,
    /// after archiving the round before it. Refuses a game that the catalogue
    /// does not have, and then changes nothing.
    pub fn new_round(
        &mut self,
        game_type: GameType,
        guess: u32,
        bet_amount: u64,
        clock: &Clock,
    ) -> (done: Result<(), VrfFlipError>)
        requires
            old(self).can_open_round(game_type),
        ensures
            match game_type.config() {
                Some(config) => {
                    &&& done == Ok::<(), VrfFlipError>(())
                    &&& *final(self) == old(self).with_new_round(
                        game_type,
                        config,
                        guess,
                        bet_amount,
                        *clock,
                    )
                },
                None => {
                    &&& done == Err::<(), VrfFlipError>(VrfFlipError::InvalidGameType)
                    &&& *final(self) == *old(self)
                },
            },
    {
        let archive = self.current_round != Round::default() && self.current_round.round_id
            != self.history.rounds[self.history.idx as usize].round_id;
        let game_config = match game_type.get_game_config() {
            Ok(config) => config,
            Err(e) => {
                return Err(e);
            },
        };
        if archive {
            let current = self.current_round;
            self.history.push(current);
        }
        self.current_round = Round {
            game_type,
            status: RoundStatus::Awaiting,
            game_config,
            guess,
            result: 0,
            bet_amount,
            round_id: match self.current_round.round_id.checked_add(1) {
                Some(next) => next,
                None => vstd::pervasive::unreached(),
            },
            request_slot: clock.slot,
            request_timestamp: clock.unix_timestamp,
            settle_slot: 0,
            settle_timestamp: 0,
        };
        Ok(())
    }
}

impl Default for UserState {
    fn default() -> (user: UserState)
        ensures
            user == UserState::zeroed(),
    {
        let mut history = History::default();
        history.max = 0;
        UserState {
            bump: 0,
            authority: Pubkey::default(),
            house: Pubkey::default(),
            escrow: Pubkey::default(),
            reward_address: Pubkey::default(),
            vrf: Pubkey::default(),
            switchboard_state_bump: 0,
            vrf_permission_bump: 0,
            current_round: Round::default(),
            last_airdrop_request_slot: 0,
            history,
        }
    }
}

} // verus!
