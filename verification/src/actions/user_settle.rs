//! Settling a bet: the checks on the oracle's answer, the result of the
//! round and the moves of value that follow from it.

use vstd::prelude::*;
use crate::error::{AccountError, ActionError, VrfFlipError};
use crate::events::UserBetSettled;
use crate::house::HouseState;
use crate::oracle::{reads_as, result_words, VrfAccount};
use crate::pubkey::Pubkey;
use crate::round::{Clock, Round, RoundStatus};
use crate::token::{transfer, transfer_spec, TokenAccount};
use crate::user::UserState;

verus! {

/// The accounts that a bet is settled with.
#[derive(Clone, Copy, Debug)]
pub struct UserSettle {
    /// The address of the player's record.
    pub user_key: Pubkey,
    pub user: UserState,
    /// The address of the house's registry.
    pub house_key: Pubkey,
    pub house: HouseState,
    pub escrow: TokenAccount,
    pub reward_address: TokenAccount,
    pub house_vault: TokenAccount,
    pub vrf: VrfAccount,
}

/// A settlement takes no parameters: the result comes from the randomness
/// account.
#[derive(Clone, Copy, Debug, PartialEq, Eq, Structural)]
pub struct UserSettleParams {}

/// What is to be done outside the engine once a bet is settled, in this
/// order: on a win, `payout` moves from the house's vault to the player's
/// reward account and `escrow_release` from the escrow to the same; on a loss,
/// `escrow_release` moves from the escrow to the house's vault. Then the
/// report.
#[derive(Clone, Copy, Debug)]
pub struct BetSettled {
    /// The winnings; zero on a loss.
    pub payout: u64,
    /// What leaves the escrow: all it holds on a win, the wager on a loss.
    pub escrow_release: u64,
    pub event: UserBetSettled,
}

impl UserSettle {
    /// Whether the accounts belong together, and the first relation that is
    /// broken where they do not: the record names the randomness account, the
    /// house, the escrow and the reward account; the house names its vault;
    /// escrow and vault hold the house's asset in the house's custody; the
    /// reward account holds the house's asset and is the player's; the
    /// randomness account answers to the record.
    pub open spec fn accounts_spec(self) -> Result<(), ActionError> {
        if self.user.vrf != self.vrf.key || self.user.house != self.house_key || self.user.escrow
            != self.escrow.key || self.user.reward_address != self.reward_address.key {
            Err(ActionError::Account(AccountError::HasOne))
        } else if self.house.house_vault != self.house_vault.key {
            Err(ActionError::Account(AccountError::HasOne))
        } else if self.escrow.mint != self.house.mint {
            Err(ActionError::Account(AccountError::TokenMint))
        } else if self.escrow.owner != self.house_key {
            Err(ActionError::Account(AccountError::TokenOwner))
        } else if self.reward_address.mint != self.house.mint {
            Err(ActionError::Account(AccountError::TokenMint))
        } else if self.reward_address.owner != self.user.authority {
            Err(ActionError::Account(AccountError::TokenOwner))
        } else if self.house_vault.mint != self.house.mint {
            Err(ActionError::Account(AccountError::TokenMint))
        } else if self.house_vault.owner != self.house_key {
            Err(ActionError::Account(AccountError::TokenOwner))
        } else if self.vrf.authority != self.user_key {
            Err(ActionError::Flip(VrfFlipError::InvalidVrfAuthority))
        } else {
            Ok(())
        }
    }

    /// Checks that the accounts belong together.
    pub fn check_accounts(&self) -> (checked: Result<(), ActionError>)
        ensures
            checked == self.accounts_spec(),
    {
        if self.user.vrf != self.vrf.key || self.user.house != self.house_key || self.user.escrow
            != self.escrow.key || self.user.reward_address != self.reward_address.key {
            return Err(ActionError::Account(AccountError::HasOne));
        }
        if self.house.house_vault != self.house_vault.key {
            return Err(ActionError::Account(AccountError::HasOne));
        }
        if self.escrow.mint != self.house.mint {
            return Err(ActionError::Account(AccountError::TokenMint));
        }
        if self.escrow.owner != self.house_key {
            return Err(ActionError::Account(AccountError::TokenOwner));
        }
        if self.reward_address.mint != self.house.mint {
            return Err(ActionError::Account(AccountError::TokenMint));
        }
        if self.reward_address.owner != self.user.authority {
            return Err(ActionError::Account(AccountError::TokenOwner));
        }
        if self.house_vault.mint != self.house.mint {
            return Err(ActionError::Account(AccountError::TokenMint));
        }
        if self.house_vault.owner != self.house_key {
            return Err(ActionError::Account(AccountError::TokenOwner));
        }
        if self.vrf.authority != self.user_key {
            return Err(ActionError::Flip(VrfFlipError::InvalidVrfAuthority));
        }
        Ok(())
    }

    /// A settlement is acceptable only for a round that awaits its result.
    pub open spec fn validate_spec(self) -> Result<(), VrfFlipError> {
        if self.user.current_round.status != RoundStatus::Awaiting {
            Err(VrfFlipError::CurrentRoundAlreadyClosed)
        } else {
            Ok(())
        }
    }

    /// Checks that the round awaits its result.
    pub fn validate(&self, _params: &UserSettleParams) -> (checked: Result<(), VrfFlipError>)
        ensures
            checked == self.validate_spec(),
    {
        if self.user.current_round.status != RoundStatus::Awaiting {
            return Err(VrfFlipError::CurrentRoundAlreadyClosed);
        }
        Ok(())
    }

    /// Whether the oracle's answer is the one for the round in play, and the
    /// answer where it is: the randomness account answers to the player's
    /// record, it has served exactly as many requests as the round's number,
    /// and it holds a result.
    pub open spec fn answer_spec(self) -> Result<[u8; 32], ActionError> {
        if self.vrf.authority != self.user_key {
            Err(ActionError::Flip(VrfFlipError::InvalidVrfAuthority))
        } else if self.vrf.counter != self.user.current_round.round_id {
            Err(ActionError::Flip(VrfFlipError::IncorrectVrfCounter))
        } else if !crate::oracle::holds_result(self.vrf.result) {
            Err(ActionError::VrfEmpty)
        } else {
            Ok(self.vrf.result)
        }
    }

    /// Takes the oracle's answer for the round in play, or refuses an answer
    /// that is not for it.
    pub fn verify_answer(&self) -> (answer: Result<[u8; 32], ActionError>)
        ensures
            answer == self.answer_spec(),
    {
        if self.vrf.authority != self.user_key {
            return Err(ActionError::Flip(VrfFlipError::InvalidVrfAuthority));
        }
        if self.vrf.counter != self.user.current_round.round_id {
            return Err(ActionError::Flip(VrfFlipError::IncorrectVrfCounter));
        }
        match self.vrf.get_result() {
            Some(buffer) => Ok(buffer),
            None => Err(ActionError::VrfEmpty),
        }
    }

    /// The report of a settlement of `round` with these accounts.
    pub open spec fn settle_event(self, round: Round, clock: Clock) -> UserBetSettled {
        UserBetSettled {
            round_id: round.round_id,
            user: self.user_key,
            user_won: round.won(),
            game_type: round.game_type,
            bet_amount: round.bet_amount,
            escrow_change: if round.won() {
                (round.payout() + round.bet_amount) as u64
            } else {
                round.bet_amount
            },
            guess: round.guess,
            result: round.result,
            slot: clock.slot,
            timestamp: clock.unix_timestamp,
        }
    }

    /// What settling the round in play with the random word `word` does: the
    /// accounts afterwards and what is to be done outside, or the reason why
    /// nothing is done. On a win the winnings move from the vault to the
    /// reward account, then all that the escrow holds moves there too. On a
    /// loss the wager moves from the escrow to the vault. The house is the
    /// authority of every move.
    pub open spec fn settle_spec(self, clock: Clock, word: u32) -> Result<
        (UserSettle, BetSettled),
        ActionError,
    > {
        let round = self.user.current_round.settled_with(word, clock);
        let user = UserState { current_round: round, ..self.user };
        let event = self.settle_event(round, clock);
        if round.result == 0 {
            Err(ActionError::Flip(VrfFlipError::CurrentRoundStillActive))
        } else if round.won() {
            match transfer_spec(
                self.house_vault,
                self.reward_address,
                self.house_key,
                round.payout() as u64,
            ) {
                Err(e) => Err(ActionError::Token(e)),
                Ok((vault, reward)) => match transfer_spec(
                    self.escrow,
                    reward,
                    self.house_key,
                    self.escrow.amount,
                ) {
                    Err(e) => Err(ActionError::Token(e)),
                    Ok((escrow, reward)) => Ok(
                        (
                            UserSettle {
                                user,
                                house_vault: vault,
                                reward_address: reward,
                                escrow,
                                ..self
                            },
                            BetSettled {
                                payout: round.payout() as u64,
                                escrow_release: self.escrow.amount,
                                event,
                            },
                        ),
                    ),
                },
            }
        } else {
            match transfer_spec(self.escrow, self.house_vault, self.house_key, round.bet_amount) {
                Err(e) => Err(ActionError::Token(e)),
                Ok((escrow, vault)) => Ok(
                    (
                        UserSettle { user, house_vault: vault, escrow, ..self },
                        BetSettled { payout: 0, escrow_release: round.bet_amount, event },
                    ),
                ),
            }
        }
    }

    /// Whether the round in play can be settled with `word` within the range
    /// of the machine's numbers: the outcome can be computed and, where there
    /// is one, the winnings fit and on a win so do wager and winnings together.
    pub open spec fn can_settle(self, word: u32) -> bool {
        let round = self.user.current_round;
        &&& Round::can_reduce(round.game_config, word)
        &&& Round::outcome(round.game_config, word) != 0 && Round::outcome(
            round.game_config,
            word,
        ) == round.guess ==> round.bet_amount * round.game_config.payout_multiplier
            + round.bet_amount <= u64::MAX
    }

    /// Settles the round in play with the first of the random words, moves the
    /// value and makes the report. On an error nothing has changed.
    pub fn settle_with(&mut self, clock: &Clock, vrf_value: &[u32]) -> (settled: Result<
        BetSettled,
        ActionError,
    >)
        requires
            vrf_value@.len() > 0,
            old(self).can_settle(vrf_value@[0]),
        ensures
            match old(self).settle_spec(*clock, vrf_value@[0]) {
                Ok((next, plan)) => {
                    &&& settled == Ok::<BetSettled, ActionError>(plan)
                    &&& *final(self) == next
                },
                Err(e) => {
                    &&& settled == Err::<BetSettled, ActionError>(e)
                    &&& *final(self) == *old(self)
                },
            },
    {
        let mut round = self.user.current_round;
        let user_won = match round.settle(vrf_value, clock) {
            Ok(won) => won,
            Err(e) => {
                return Err(ActionError::Flip(e));
            },
        };
        let reward_amount = match round.payout_amount() {
            Ok(amount) => amount,
            Err(e) => {
                return Err(ActionError::Flip(e));
            },
        };

        let mut escrow = self.escrow;
        let mut reward_address = self.reward_address;
        let mut house_vault = self.house_vault;
        let escrow_change: u64;
        let escrow_release: u64;
        if user_won {
            escrow_change = match reward_amount.checked_add(round.bet_amount) {
                Some(change) => change,
                None => vstd::pervasive::unreached(),
            };
            escrow_release = escrow.amount;
            match transfer(&mut house_vault, &mut reward_address, &self.house_key, reward_amount) {
                Ok(()) => {},
                Err(e) => {
                    return Err(ActionError::Token(e));
                },
            }
            match transfer(&mut escrow, &mut reward_address, &self.house_key, escrow_release) {
                Ok(()) => {},
                Err(e) => {
                    return Err(ActionError::Token(e));
                },
            }
        } else {
            escrow_change = round.bet_amount;
            escrow_release = round.bet_amount;
            match transfer(&mut escrow, &mut house_vault, &self.house_key, round.bet_amount) {
                Ok(()) => {},
                Err(e) => {
                    return Err(ActionError::Token(e));
                },
            }
        }

        let event = UserBetSettled {
            round_id: round.round_id,
            user: self.user_key,
            user_won,
            game_type: round.game_type,
            bet_amount: round.bet_amount,
            escrow_change,
            guess: round.guess,
            result: round.result,
            slot: clock.slot,
            timestamp: clock.unix_timestamp,
        };
        self.user.current_round = round;
        self.escrow = escrow;
        self.reward_address = reward_address;
        self.house_vault = house_vault;
        Ok(BetSettled { payout: reward_amount, escrow_release, event })
    }

    /// Whether `actuate` can run: where the oracle's answer is accepted, the
    /// round can be settled with its first word, in whichever byte order the
    /// machine reads it.
    pub open spec fn can_actuate(self) -> bool {
        self.answer_spec() matches Ok(buffer) ==> forall|words: Seq<u32>|
            reads_as(buffer@, words) ==> self.can_settle(#[trigger] words[0])
    }

    /// Tests whether the round in play can be settled with `word` within the
    /// range of the machine's numbers.
    pub fn settles_within_limits(&self, word: u32) -> (ok: bool)
        ensures
            ok == self.can_settle(word),
    {
        let round = self.user.current_round;
        let config = round.game_config;
        if config.max == 0 {
            return false;
        }
        let outcome: u64 = ((word % config.max) as u64) + (config.min as u64);
        if outcome > (u32::MAX as u64) {
            return false;
        }
        if outcome != 0 && outcome == (round.guess as u64) {
            assert(round.bet_amount * config.payout_multiplier <= 0xFFFF_FFFF_FFFF_FFFF
                * 0xFFFF_FFFF) by (nonlinear_arith)
                requires
                    0 <= round.bet_amount <= 0xFFFF_FFFF_FFFF_FFFF,
                    0 <= config.payout_multiplier <= 0xFFFF_FFFF,
            ;
            let winnings: u128 = (round.bet_amount as u128) * (config.payout_multiplier as u128);
            winnings + (round.bet_amount as u128) <= (u64::MAX as u128)
        } else {
            true
        }
    }

    /// Tests whether `actuate` can run within the range of the machine's
    /// numbers.
    pub fn within_limits(&self) -> (ok: bool)
        ensures
            ok == self.can_actuate(),
    {
        match self.verify_answer() {
            Err(_) => true,
            Ok(buffer) => {
                let low_first = word_of(buffer[0], buffer[1], buffer[2], buffer[3]);
                let high_first = word_of(buffer[3], buffer[2], buffer[1], buffer[0]);
                let ok = self.settles_within_limits(low_first) && self.settles_within_limits(
                    high_first,
                );
                proof {
                    assert(crate::oracle::words_le(buffer@)[0] == low_first);
                    assert(crate::oracle::words_be(buffer@)[0] == high_first);
                    if !ok {
                        if !self.can_settle(low_first) {
                            assert(reads_as(buffer@, crate::oracle::words_le(buffer@)));
                        } else {
                            assert(reads_as(buffer@, crate::oracle::words_be(buffer@)));
                        }
                    }
                }
                ok
            },
        }
    }

    /// Whether `settled` and `next` are what settling `self` gives with the
    /// first word of some reading of the oracle's answer, or the refusal of
    /// the answer with nothing changed.
    pub open spec fn actuated(
        self,
        clock: Clock,
        next: UserSettle,
        settled: Result<BetSettled, ActionError>,
    ) -> bool {
        match self.answer_spec() {
            Err(e) => settled == Err::<BetSettled, ActionError>(e) && next == self,
            Ok(buffer) => exists|words: Seq<u32>|
                {
                    &&& reads_as(buffer@, words)
                    &&& match #[trigger] self.settle_spec(clock, words[0]) {
                        Ok((after, plan)) => settled == Ok::<BetSettled, ActionError>(plan)
                            && next == after,
                        Err(e) => settled == Err::<BetSettled, ActionError>(e) && next == self,
                    }
                },
        }
    }

    /// Settles the round in play with the oracle's answer: checks that the
    /// answer is for this round, reads its first word, and settles with it.
    /// On an error nothing has changed.
    pub fn actuate(&mut self, clock: &Clock, _params: &UserSettleParams) -> (settled: Result<
        BetSettled,
        ActionError,
    >)
        requires
            old(self).can_actuate(),
        ensures
            old(self).actuated(*clock, *final(self), settled),
    {
        let vrf_result_buffer = match self.verify_answer() {
            Ok(buffer) => buffer,
            Err(e) => {
                return Err(e);
            },
        };
        let vrf_value: [u32; 8] = result_words(vrf_result_buffer);
        assert(vrf_value@.len() == 8);
        self.settle_with(clock, vrf_value.as_slice())
    }
}

/// The word whose bytes are `b0..b3`, lowest byte first.
fn word_of(b0: u8, b1: u8, b2: u8, b3: u8) -> (word: u32)
    ensures
        word == crate::oracle::word_le(b0, b1, b2, b3),
{
    (b0 as u32) + (b1 as u32) * 0x100 + (b2 as u32) * 0x1_0000 + (b3 as u32) * 0x100_0000
}

/// A settlement neither creates nor destroys value: what the vault, the escrow
/// and the reward account hold together is the same after it as before. And it
/// leaves the custody of the three accounts as it was: the escrow stays in the
/// hands that held it.
pub proof fn lemma_settlement_conserves(accounts: UserSettle, clock: Clock, word: u32)
    ensures
        accounts.settle_spec(clock, word) matches Ok((after, _)) ==> {
            &&& after.house_vault.amount + after.escrow.amount + after.reward_address.amount
                == accounts.house_vault.amount + accounts.escrow.amount
                + accounts.reward_address.amount
            &&& after.escrow.owner == accounts.escrow.owner
            &&& after.escrow.close_authority == accounts.escrow.close_authority
            &&& after.house_vault.owner == accounts.house_vault.owner
            &&& after.reward_address.owner == accounts.reward_address.owner
            &&& after.reward_address.close_authority == accounts.reward_address.close_authority
            &&& after.user.history == accounts.user.history
        },
{
}

/// What a settlement moves among three accounts that are three: on a win the
/// escrow is left empty and the reward account gains the winnings and all
/// that the escrow held; on a loss the vault gains the wager, the escrow loses
/// it and the reward account is untouched.
pub proof fn lemma_settlement_moves(accounts: UserSettle, clock: Clock, word: u32)
    requires
        accounts.can_settle(word),
        accounts.escrow.key != accounts.reward_address.key,
        accounts.escrow.key != accounts.house_vault.key,
        accounts.house_vault.key != accounts.reward_address.key,
    ensures
        accounts.settle_spec(clock, word) matches Ok((after, plan)) ==> {
            let round = after.user.current_round;
            &&& round == accounts.user.current_round.settled_with(word, clock)
            &&& round.status == RoundStatus::Settled
            &&& plan.payout == round.payout()
            &&& round.won() ==> {
                &&& after.escrow.amount == 0
                &&& after.reward_address.amount == accounts.reward_address.amount + round.payout()
                    + accounts.escrow.amount
                &&& after.house_vault.amount == accounts.house_vault.amount - round.payout()
            }
            &&& !round.won() ==> {
                &&& after.escrow.amount == accounts.escrow.amount - round.bet_amount
                &&& after.house_vault.amount == accounts.house_vault.amount + round.bet_amount
                &&& after.reward_address.amount == accounts.reward_address.amount
            }
        },
{
}

/// A round is settled once: after a settlement the round is closed, so that
/// the check before the next settlement refuses it, whatever accounts come
/// with the record.
pub proof fn lemma_settled_round_is_closed(
    accounts: UserSettle,
    clock: Clock,
    word: u32,
    again: UserSettle,
)
    requires
        accounts.settle_spec(clock, word) matches Ok((after, _)) && again.user == after.user,
    ensures
        again.validate_spec() == Err::<(), VrfFlipError>(VrfFlipError::CurrentRoundAlreadyClosed),
{
}

} // verus!
