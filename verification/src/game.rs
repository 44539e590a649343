//! The catalogue of games: which outcomes a game has and what a win pays.

use vstd::prelude::*;
use crate::error::VrfFlipError;

verus! {

/// The games a player can bet on.
#[derive(Clone, Copy, Debug, PartialEq, Eq, Structural)]
pub enum GameType {
    /// No game was chosen.
    NoGame,
    CoinFlip,
    SixSidedDiceRoll,
    TwentySidedDiceRoll,
}

/// The parameters of one game.
#[derive(Clone, Copy, Debug, PartialEq, Eq, Structural)]
pub struct GameConfig {
    /// How many random values the game consumes.
    pub num_vrf_requests: u8,
    /// The smallest outcome; greater than zero for every catalogued game.
    pub min: u32,
    /// The largest outcome a player may guess.
    pub max: u32,
    /// The factor applied to the wager on a win.
    pub payout_multiplier: u32,
}

impl GameConfig {
    /// The configuration with every field zero, which no game has.
    pub open spec fn zeroed() -> GameConfig {
        GameConfig { num_vrf_requests: 0, min: 0, max: 0, payout_multiplier: 0 }
    }

    /// Whether a player may guess `guess` in this game.
    pub open spec fn admits(self, guess: u32) -> bool {
        self.min <= guess <= self.max
    }
}

impl Default for GameConfig {
    fn default() -> (config: GameConfig)
        ensures
            config == GameConfig::zeroed(),
    {
        GameConfig { num_vrf_requests: 0, min: 0, max: 0, payout_multiplier: 0 }
    }
}

impl GameType {
    /// The game that a number names, if it names one.
    pub open spec fn of_u32(val: u32) -> Option<GameType> {
        if val == 0 {
            Some(GameType::NoGame)
        } else if val == 1 {
            Some(GameType::CoinFlip)
        } else if val == 2 {
            Some(GameType::SixSidedDiceRoll)
        } else if val == 3 {
            Some(GameType::TwentySidedDiceRoll)
        } else {
            None
        }
    }

    /// The parameters of a game; `NoGame` has none.
    pub open spec fn config(self) -> Option<GameConfig> {
        match self {
            GameType::NoGame => None,
            GameType::CoinFlip => Some(
                GameConfig { num_vrf_requests: 1, min: 1, max: 2, payout_multiplier: 1 },
            ),
            GameType::SixSidedDiceRoll => Some(
                GameConfig { num_vrf_requests: 1, min: 1, max: 6, payout_multiplier: 5 },
            ),
            GameType::TwentySidedDiceRoll => Some(
                GameConfig { num_vrf_requests: 1, min: 1, max: 20, payout_multiplier: 19 },
            ),
        }
    }

    /// The parameters of the game that a number names: none where the number
    /// names no game, and none for `NoGame`.
    pub open spec fn config_of_u32(val: u32) -> Option<GameConfig> {
        match GameType::of_u32(val) {
            Some(game) => game.config(),
            None => None,
        }
    }

    /// Reads a game from its number.
    pub fn from_u32(val: u32) -> (game: Result<GameType, VrfFlipError>)
        ensures
            game == match GameType::of_u32(val) {
                Some(g) => Ok::<GameType, VrfFlipError>(g),
                None => Err(VrfFlipError::InvalidGameType),
            },
    {
        match val {
            0 => Ok(GameType::NoGame),
            1 => Ok(GameType::CoinFlip),
            2 => Ok(GameType::SixSidedDiceRoll),
            3 => Ok(GameType::TwentySidedDiceRoll),
            _ => Err(VrfFlipError::InvalidGameType),
        }
    }

    /// Looks the game up in the catalogue.
    pub fn get_game_config(&self) -> (config: Result<GameConfig, VrfFlipError>)
        ensures
            config == match self.config() {
                Some(c) => Ok::<GameConfig, VrfFlipError>(c),
                None => Err(VrfFlipError::InvalidGameType),
            },
    {
        match self {
            GameType::CoinFlip => Ok(
                GameConfig { num_vrf_requests: 1, min: 1, max: 2, payout_multiplier: 1 },
            ),
            GameType::SixSidedDiceRoll => Ok(
                GameConfig { num_vrf_requests: 1, min: 1, max: 6, payout_multiplier: 5 },
            ),
            GameType::TwentySidedDiceRoll => Ok(
                GameConfig { num_vrf_requests: 1, min: 1, max: 20, payout_multiplier: 19 },
            ),
            _ => Err(VrfFlipError::InvalidGameType),
        }
    }
}

impl Default for GameType {
    fn default() -> (game: GameType)
        ensures
            game == GameType::NoGame,
    {
        GameType::NoGame
    }
}

/// Every catalogued game has outcomes from 1 up, at least two of them, a
/// multiplier that is the number of losing outcomes, and consumes one random
/// value.
pub proof fn lemma_catalogue_shape(game: GameType)
    ensures
        game.config() matches Some(c) ==> {
            &&& c.min == 1
            &&& c.max >= 2
            &&& c.payout_multiplier == c.max - c.min
            &&& c.num_vrf_requests == 1
        },
        game.config() is None <==> game == GameType::NoGame,
{
}

} // verus!
