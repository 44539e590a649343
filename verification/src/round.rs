//! One wager from placement to settlement.

use vstd::prelude::*;
use crate::error::VrfFlipError;
use crate::game::{GameConfig, GameType};

verus! {

/// How long, in seconds, a round that awaits its result counts as live.
pub const ROUND_FRESHNESS_SECONDS: i64 = 60;

/// The time as the ledger reports it.
#[derive(Clone, Copy, Debug, PartialEq, Eq, Structural)]
pub struct Clock {
    pub slot: u64,
    pub unix_timestamp: i64,
}

/// Where a round is in its life.
#[derive(Clone, Copy, Debug, PartialEq, Eq, Structural)]
pub enum RoundStatus {
    /// No bet has been placed.
    NoRound,
    /// A bet is placed and its random value is requested.
    Awaiting,
    /// The result is applied.
    Settled,
}

impl Default for RoundStatus {
    fn default() -> (status: RoundStatus)
        ensures
            status == RoundStatus::NoRound,
    {
        RoundStatus::NoRound
    }
}

/// One wager: what was bet, on which game, and how it ended.
#[derive(Clone, Copy, Debug, PartialEq, Eq, Structural)]
pub struct Round {
    pub round_id: u128,
    pub status: RoundStatus,
    pub bet_amount: u64,
    pub game_type: GameType,
    /// The game's parameters as they were when the bet was placed.
    pub game_config: GameConfig,
    pub guess: u32,
    /// The outcome; zero until the round is settled.
    pub result: u32,
    pub request_slot: u64,
    pub request_timestamp: i64,
    pub settle_slot: u64,
    pub settle_timestamp: i64,
}

impl Round {
    /// The round of a player who has never bet.
    pub open spec fn zeroed() -> Round {
        Round {
            round_id: 0,
            status: RoundStatus::NoRound,
            bet_amount: 0,
            game_type: GameType::NoGame,
            game_config: GameConfig::zeroed(),
            guess: 0,
            result: 0,
            request_slot: 0,
            request_timestamp: 0,
            settle_slot: 0,
            settle_timestamp: 0,
        }
    }

    /// Whether the round awaits its result and was requested less than
    /// `ROUND_FRESHNESS_SECONDS` before `now`.
    pub open spec fn live_at(self, now: int) -> bool {
        self.status == RoundStatus::Awaiting && self.request_timestamp > now
            - ROUND_FRESHNESS_SECONDS
    }

    /// The outcome that a raw random word stands for: the word modulo the
    /// largest outcome, plus the smallest.
    pub open spec fn outcome(config: GameConfig, word: u32) -> int {
        (word as int) % (config.max as int) + config.min
    }

    /// Whether `outcome` can be computed for this configuration and word.
    pub open spec fn can_reduce(config: GameConfig, word: u32) -> bool {
        config.max > 0 && Round::outcome(config, word) <= u32::MAX
    }

    /// The round after `word` has been applied to it at time `clock`.
    pub open spec fn settled_with(self, word: u32, clock: Clock) -> Round {
        Round {
            result: Round::outcome(self.game_config, word) as u32,
            settle_slot: clock.slot,
            settle_timestamp: clock.unix_timestamp,
            status: RoundStatus::Settled,
            ..self
        }
    }

    /// Whether the player guessed the outcome.
    pub open spec fn won(self) -> bool {
        self.result == self.guess
    }

    /// What a settled round pays: nothing on a loss, the wager times the
    /// multiplier on a win.
    pub open spec fn payout(self) -> int {
        if self.result != self.guess {
            0
        } else {
            self.bet_amount * self.game_config.payout_multiplier
        }
    }

    /// Whether a new bet must wait for this round.
    pub fn is_open(&self, clock: &Clock) -> (open: bool)
        ensures
            open == self.live_at(clock.unix_timestamp as int),
    {
        self.status == RoundStatus::Awaiting && (self.request_timestamp as i128) > (
        clock.unix_timestamp as i128) - (ROUND_FRESHNESS_SECONDS as i128)
    }

    /// Applies the first word of `vrf_result` to the round and says whether the
    /// player won.
    pub fn settle(&mut self, vrf_result: &[u32], clock: &Clock) -> (won: Result<
        bool,
        VrfFlipError,
    >)
        requires
            vrf_result@.len() > 0,
            Round::can_reduce(old(self).game_config, vrf_result@[0]),
        ensures
            *final(self) == old(self).settled_with(vrf_result@[0], *clock),
            won == Ok::<bool, VrfFlipError>(final(self).won()),
    {
        let result: u32 = match (vrf_result[0] % self.game_config.max).checked_add(
            self.game_config.min,
        ) {
            Some(outcome) => outcome,
            None => vstd::pervasive::unreached(),
        };

        self.result = result;
        self.settle_slot = clock.slot;
        self.settle_timestamp = clock.unix_timestamp;
        self.status = RoundStatus::Settled;

        Ok(self.result == self.guess)
    }

    /// What the round pays out. A round without a result has no payout yet.
    pub fn payout_amount(&self) -> (amount: Result<u64, VrfFlipError>)
        requires
            self.result != 0 ==> self.payout() <= u64::MAX,
        ensures
            self.result == 0 ==> amount == Err::<u64, VrfFlipError>(
                VrfFlipError::CurrentRoundStillActive,
            ),
            self.result != 0 ==> amount == Ok::<u64, VrfFlipError>(self.payout() as u64),
    {
        if self.result == 0 {
            return Err(VrfFlipError::CurrentRoundStillActive);
        }
        if self.result != self.guess {
            return Ok(0);
        }
        let payout_amount: u64 = match self.bet_amount.checked_mul(
            self.game_config.payout_multiplier as u64,
        ) {
            Some(amount) => amount,
            None => vstd::pervasive::unreached(),
        };

        Ok(payout_amount)
    }
}

/// What a round pays is settled by its result alone: nothing where the result
/// is not the guess, the wager times the multiplier where it is.
pub proof fn lemma_payout_law(round: Round)
    ensures
        round.result != round.guess ==> round.payout() == 0,
        round.result == round.guess ==> round.payout() == round.bet_amount
            * round.game_config.payout_multiplier,
        round.payout() >= 0,
{
    assert(round.bet_amount * round.game_config.payout_multiplier >= 0) by (nonlinear_arith)
        requires
            round.bet_amount >= 0,
            round.game_config.payout_multiplier >= 0,
    ;
}

/// The outcome of a word lies between the smallest outcome and the largest
/// less one plus the smallest. For a game of the catalogue, whose smallest
/// outcome is 1, that is between 1 and the largest.
pub proof fn lemma_outcome_range(config: GameConfig, word: u32)
    requires
        config.max > 0,
    ensures
        config.min <= Round::outcome(config, word) <= config.max - 1 + config.min,
{
}

impl Default for Round {
    fn default() -> (round: Round)
        ensures
            round == Round::zeroed(),
    {
        Round {
            round_id: 0,
            status: RoundStatus::NoRound,
            bet_amount: 0,
            game_type: GameType::NoGame,
            game_config: GameConfig { num_vrf_requests: 0, min: 0, max: 0, payout_multiplier: 0 },
            guess: 0,
            result: 0,
            request_slot: 0,
            request_timestamp: 0,
            settle_slot: 0,
            settle_timestamp: 0,
        }
    }
}

} // verus!
