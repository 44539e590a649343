//! The operations as a caller invokes them: the accounts are checked, then
//! the request, then the operation is carried out. An operation that fails
//! at any point has changed nothing.

use vstd::prelude::*;
use crate::actions::house_init::{HouseInit, HouseInitParams};
use crate::actions::user_airdrop::{UserAirdrop, UserAirdropParams};
use crate::actions::user_bet::{BetPlaced, UserBet, UserBetParams};
use crate::actions::user_init::{UserInit, UserInitParams};
use crate::actions::user_settle::{BetSettled, UserSettle, UserSettleParams};
use crate::error::{ActionError, VrfFlipError};
use crate::round::{Clock, RoundStatus, ROUND_FRESHNESS_SECONDS};

verus! {

/// What `house_init` does.
pub open spec fn house_init_spec(accounts: HouseInit) -> Result<HouseInit, ActionError> {
    match accounts.accounts_spec() {
        Err(e) => Err(e),
        Ok(()) => accounts.actuate_spec(),
    }
}

/// Opens the house.
pub fn house_init(accounts: &mut HouseInit, params: HouseInitParams) -> (done: Result<
    (),
    ActionError,
>)
    ensures
        match house_init_spec(*old(accounts)) {
            Ok(next) => done == Ok::<(), ActionError>(()) && *final(accounts) == next,
            Err(e) => done == Err::<(), ActionError>(e) && *final(accounts) == *old(accounts),
        },
{
    match accounts.check_accounts() {
        Ok(()) => {},
        Err(e) => {
            return Err(e);
        },
    }
    match accounts.validate(&params) {
        Ok(()) => {},
        Err(e) => {
            return Err(ActionError::Flip(e));
        },
    }
    accounts.actuate(&params)
}

/// What `user_init` does.
pub open spec fn user_init_spec(accounts: UserInit, params: UserInitParams) -> Result<
    UserInit,
    ActionError,
> {
    match accounts.accounts_spec() {
        Err(e) => Err(e),
        Ok(()) => match accounts.validate_spec() {
            Err(e) => Err(ActionError::Flip(e)),
            Ok(()) => accounts.actuate_spec(params),
        },
    }
}

/// Admits a player.
pub fn user_init(accounts: &mut UserInit, params: UserInitParams) -> (done: Result<
    (),
    ActionError,
>)
    ensures
        match user_init_spec(*old(accounts), params) {
            Ok(next) => done == Ok::<(), ActionError>(()) && *final(accounts) == next,
            Err(e) => done == Err::<(), ActionError>(e) && *final(accounts) == *old(accounts),
        },
{
    match accounts.check_accounts() {
        Ok(()) => {},
        Err(e) => {
            return Err(e);
        },
    }
    match accounts.validate(&params) {
        Ok(()) => {},
        Err(e) => {
            return Err(ActionError::Flip(e));
        },
    }
    accounts.actuate(&params)
}

/// What `user_bet` does.
pub open spec fn user_bet_spec(accounts: UserBet, clock: Clock, params: UserBetParams) -> Result<
    (UserBet, BetPlaced),
    ActionError,
> {
    match accounts.accounts_spec() {
        Err(e) => Err(e),
        Ok(()) => match accounts.validate_spec(clock, params) {
            Err(e) => Err(ActionError::Flip(e)),
            Ok(()) => accounts.actuate_spec(clock, params),
        },
    }
}

/// Whether `user_bet` can run within the range of the machine's numbers.
pub open spec fn can_bet(accounts: UserBet, clock: Clock, params: UserBetParams) -> bool {
    accounts.accounts_spec() is Ok && accounts.validate_spec(clock, params) is Ok
        ==> accounts.can_actuate(params)
}

/// Places a bet.
pub fn user_bet(accounts: &mut UserBet, clock: &Clock, params: UserBetParams) -> (placed: Result<
    BetPlaced,
    ActionError,
>)
    requires
        can_bet(*old(accounts), *clock, params),
    ensures
        match user_bet_spec(*old(accounts), *clock, params) {
            Ok((next, plan)) => placed == Ok::<BetPlaced, ActionError>(plan) && *final(accounts)
                == next,
            Err(e) => placed == Err::<BetPlaced, ActionError>(e) && *final(accounts) == *old(
                accounts,
            ),
        },
{
    match accounts.check_accounts() {
        Ok(()) => {},
        Err(e) => {
            return Err(e);
        },
    }
    match accounts.validate(clock, &params) {
        Ok(()) => {},
        Err(e) => {
            return Err(ActionError::Flip(e));
        },
    }
    accounts.actuate(clock, &params)
}

/// Whether `settled` and `next` are what `user_settle` gives on `accounts`:
/// the refusal of the accounts or of the round with nothing changed, or what
/// `UserSettle::actuated` describes.
pub open spec fn user_settled(
    accounts: UserSettle,
    clock: Clock,
    next: UserSettle,
    settled: Result<BetSettled, ActionError>,
) -> bool {
    match accounts.accounts_spec() {
        Err(e) => settled == Err::<BetSettled, ActionError>(e) && next == accounts,
        Ok(()) => match accounts.validate_spec() {
            Err(e) => settled == Err::<BetSettled, ActionError>(ActionError::Flip(e)) && next
                == accounts,
            Ok(()) => accounts.actuated(clock, next, settled),
        },
    }
}

/// Whether `user_settle` can run within the range of the machine's numbers.
pub open spec fn can_settle(accounts: UserSettle) -> bool {
    accounts.accounts_spec() is Ok && accounts.validate_spec() is Ok ==> accounts.can_actuate()
}

/// Settles the bet in play.
pub fn user_settle(accounts: &mut UserSettle, clock: &Clock, params: UserSettleParams) -> (settled:
    Result<BetSettled, ActionError>)
    requires
        can_settle(*old(accounts)),
    ensures
        user_settled(*old(accounts), *clock, *final(accounts), settled),
{
    match accounts.check_accounts() {
        Ok(()) => {},
        Err(e) => {
            return Err(e);
        },
    }
    match accounts.validate(&params) {
        Ok(()) => {},
        Err(e) => {
            return Err(ActionError::Flip(e));
        },
    }
    accounts.actuate(clock, &params)
}

/// What `user_airdrop` does.
pub open spec fn user_airdrop_spec(accounts: UserAirdrop, clock: Clock) -> Result<
    (UserAirdrop, u64),
    ActionError,
> {
    match accounts.accounts_spec() {
        Err(e) => Err(e),
        Ok(()) => match accounts.validate_spec(clock) {
            Err(e) => Err(ActionError::Flip(e)),
            Ok(()) => accounts.actuate_spec(clock),
        },
    }
}

/// Grants a player who has run low, and returns the amount.
pub fn user_airdrop(accounts: &mut UserAirdrop, clock: &Clock, params: UserAirdropParams) -> (granted:
    Result<u64, ActionError>)
    ensures
        match user_airdrop_spec(*old(accounts), *clock) {
            Ok((next, amount)) => granted == Ok::<u64, ActionError>(amount) && *final(accounts)
                == next,
            Err(e) => granted == Err::<u64, ActionError>(e) && *final(accounts) == *old(
                accounts,
            ),
        },
{
    match accounts.check_accounts() {
        Ok(()) => {},
        Err(e) => {
            return Err(e);
        },
    }
    match accounts.validate(clock, &params) {
        Ok(()) => {},
        Err(e) => {
            return Err(ActionError::Flip(e));
        },
    }
    accounts.actuate(clock, &params)
}

/// A bet that is placed opens the next round: it awaits its result, carries
/// the number after the last round's, the game's parameters as the catalogue
/// has them, and no result. The report carries the round's number. The escrow
/// holds the wager, unless the payer's account is the escrow itself. The
/// accounts stay bound as they were.
pub proof fn lemma_bet_opens_next_round(accounts: UserBet, clock: Clock, params: UserBetParams)
    requires
        accounts.user.current_round.round_id < u128::MAX,
    ensures
        user_bet_spec(accounts, clock, params) matches Ok((after, plan)) ==> {
            let round = after.user.current_round;
            &&& round.status == RoundStatus::Awaiting
            &&& round.round_id == accounts.user.current_round.round_id + 1
            &&& Some(round.game_config) == crate::game::GameType::config_of_u32(params.game_type)
            &&& round.game_config.admits(round.guess)
            &&& round.guess == params.user_guess
            &&& round.bet_amount == params.bet_amount
            &&& round.result == 0
            &&& round.request_timestamp == clock.unix_timestamp
            &&& plan.event.round_id == round.round_id
            &&& accounts.flip_payer.key != accounts.escrow.key ==> after.escrow.amount
                >= params.bet_amount
            &&& after.escrow.amount + after.flip_payer.amount == accounts.escrow.amount
                + accounts.flip_payer.amount
            &&& after.accounts_spec() is Ok
            &&& after.escrow.owner == accounts.escrow.owner
            &&& after.house_vault == accounts.house_vault
        },
{
}

/// The round that a bet opens can be settled with any random word, and so can
/// the next bet be placed, within the range of the machine's numbers: the
/// wager is within the limit and the game is one of the catalogue.
pub proof fn lemma_round_of_a_bet_can_be_settled(
    accounts: UserBet,
    clock: Clock,
    params: UserBetParams,
    settling: UserSettle,
    word: u32,
)
    requires
        user_bet_spec(accounts, clock, params) matches Ok((after, _)) && settling.user
            == after.user,
        accounts.user.history.wf(),
        accounts.user.current_round.round_id < u128::MAX,
    ensures
        settling.can_settle(word),
        settling.user.history.wf(),
        crate::round::Round::outcome(settling.user.current_round.game_config, word) != 0,
{
    let after = user_bet_spec(accounts, clock, params)->Ok_0.0;
    let round = after.user.current_round;
    let game = crate::game::GameType::of_u32(params.game_type)->Some_0;
    crate::game::lemma_catalogue_shape(game);
    assert(round.bet_amount <= crate::actions::user_bet::MAX_BET_AMOUNT);
    assert(round.game_config.payout_multiplier <= 19);
    assert(round.bet_amount * round.game_config.payout_multiplier + round.bet_amount
        <= u64::MAX) by (nonlinear_arith)
        requires
            0 <= round.bet_amount <= 100_000_000_000,
            0 <= round.game_config.payout_multiplier <= 19,
    ;
}

/// A second bet while the round of the first is live is refused as
/// `CurrentRoundStillActive`: whatever is asked, and whichever accounts come
/// with the player's record, as long as they belong together.
pub proof fn lemma_second_bet_is_refused(
    accounts: UserBet,
    clock: Clock,
    params: UserBetParams,
    again: UserBet,
    later: Clock,
    other: UserBetParams,
)
    requires
        user_bet_spec(accounts, clock, params) matches Ok((after, _)) && again.user == after.user,
        again.accounts_spec() is Ok,
        later.unix_timestamp - ROUND_FRESHNESS_SECONDS < clock.unix_timestamp,
    ensures
        user_bet_spec(again, later, other) == Err::<(UserBet, BetPlaced), ActionError>(
            ActionError::Flip(VrfFlipError::CurrentRoundStillActive),
        ),
{
}

/// A settlement is accepted only for a round that awaits its result, and it
/// closes the round.
pub proof fn lemma_settlement_closes_round(
    accounts: UserSettle,
    clock: Clock,
    next: UserSettle,
    settled: Result<BetSettled, ActionError>,
)
    requires
        user_settled(accounts, clock, next, settled),
        settled is Ok,
    ensures
        accounts.user.current_round.status == RoundStatus::Awaiting,
        next.user.current_round.status == RoundStatus::Settled,
        next.user.current_round.round_id == accounts.user.current_round.round_id,
        accounts.vrf.counter == accounts.user.current_round.round_id,
        next.house_vault.amount + next.escrow.amount + next.reward_address.amount
            == accounts.house_vault.amount + accounts.escrow.amount
            + accounts.reward_address.amount,
{
}

/// A round is settled once: a second settlement of a round that was settled
/// is refused as `CurrentRoundAlreadyClosed` and changes nothing, whichever
/// accounts come with the player's record, as long as they belong together.
pub proof fn lemma_second_settlement_is_refused(
    accounts: UserSettle,
    clock: Clock,
    next: UserSettle,
    settled: Result<BetSettled, ActionError>,
    again: UserSettle,
    later: Clock,
    after: UserSettle,
    resettled: Result<BetSettled, ActionError>,
)
    requires
        user_settled(accounts, clock, next, settled),
        settled is Ok,
        again.user == next.user,
        again.accounts_spec() is Ok,
        user_settled(again, later, after, resettled),
    ensures
        resettled == Err::<BetSettled, ActionError>(
            ActionError::Flip(VrfFlipError::CurrentRoundAlreadyClosed),
        ),
        after == again,
{
    lemma_settlement_closes_round(accounts, clock, next, settled);
}

/// An answer of the oracle that is not for the round in play is refused as
/// `IncorrectVrfCounter` and changes nothing: the randomness account must have
/// served exactly as many requests as the round's number.
pub proof fn lemma_answer_for_another_round_is_refused(
    accounts: UserSettle,
    clock: Clock,
    next: UserSettle,
    settled: Result<BetSettled, ActionError>,
)
    requires
        accounts.accounts_spec() is Ok,
        accounts.user.current_round.status == RoundStatus::Awaiting,
        accounts.vrf.counter != accounts.user.current_round.round_id,
        user_settled(accounts, clock, next, settled),
    ensures
        settled == Err::<BetSettled, ActionError>(
            ActionError::Flip(VrfFlipError::IncorrectVrfCounter),
        ),
        next == accounts,
{
}

} // verus!
