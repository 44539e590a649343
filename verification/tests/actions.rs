use vrf_flip::{
    fund_escrow, house_init, mint_to, set_close_authority, set_owner, transfer, user_airdrop,
    user_bet, user_init, user_settle, AccountError, ActionError, Clock, GameType, History,
    HouseInit, HouseInitParams, HouseState, Mint, OracleQueue, Pubkey, RequestRandomness,
    RequestRandomnessAccounts, RequestRandomnessBumps, Round, RoundStatus, TokenAccount,
    TokenError, UserAirdrop, UserAirdropParams, UserBet, UserBetParams, UserInit,
    UserInitParams, UserSettle, UserSettleParams, UserSigner, UserState, VrfAccount,
    VrfFlipError,
};

const HOUSE: u8 = 1;
const PLAYER: u8 = 2;
const RECORD: u8 = 3;
const ASSET: u8 = 4;
const VAULT: u8 = 5;
const ESCROW: u8 = 6;
const REWARD: u8 = 7;
const VRF: u8 = 8;
const QUEUE: u8 = 9;
const FEE_ASSET: u8 = 10;
const VRF_ESCROW: u8 = 11;
const ORACLE_STATE: u8 = 12;
const PAYER_FEE_WALLET: u8 = 13;
const PAYER_WALLET: u8 = 14;
const QUEUE_AUTHORITY: u8 = 15;
const DATA_BUFFER: u8 = 16;
const PERMISSION: u8 = 17;
const ORACLE_PROGRAM: u8 = 18;
const BLOCKHASHES: u8 = 19;
const TOKEN_PROGRAM: u8 = 20;
const HOUSE_ADMIN: u8 = 21;

fn key(n: u8) -> Pubkey {
    Pubkey::new_from_array([n; 32])
}

fn clock(slot: u64, unix_timestamp: i64) -> Clock {
    Clock { slot, unix_timestamp }
}

fn token(address: u8, mint: u8, owner: u8, amount: u64) -> TokenAccount {
    TokenAccount {
        key: key(address),
        mint: key(mint),
        owner: key(owner),
        amount,
        delegate: None,
        delegated_amount: 0,
        is_frozen: false,
        is_native: false,
        close_authority: None,
    }
}

fn asset(supply: u64) -> Mint {
    Mint {
        key: key(ASSET),
        mint_authority: Some(key(HOUSE)),
        supply,
        decimals: 9,
        freeze_authority: Some(key(HOUSE)),
    }
}

fn house() -> HouseState {
    HouseState {
        bump: 255,
        authority: key(HOUSE_ADMIN),
        mint: key(ASSET),
        house_vault: key(VAULT),
        switchboard_queue: key(QUEUE),
        switchboard_mint: key(FEE_ASSET),
    }
}

fn record() -> UserState {
    UserState {
        bump: 254,
        authority: key(PLAYER),
        house: key(HOUSE),
        escrow: key(ESCROW),
        reward_address: key(REWARD),
        vrf: key(VRF),
        switchboard_state_bump: 3,
        vrf_permission_bump: 4,
        current_round: Round::default(),
        last_airdrop_request_slot: 0,
        history: History::default(),
    }
}

fn vrf(counter: u128, result: [u8; 32]) -> VrfAccount {
    VrfAccount {
        key: key(VRF),
        authority: key(RECORD),
        oracle_queue: key(QUEUE),
        escrow: key(VRF_ESCROW),
        counter,
        result,
    }
}

fn queue() -> OracleQueue {
    OracleQueue {
        key: key(QUEUE),
        authority: key(QUEUE_AUTHORITY),
        data_buffer: key(DATA_BUFFER),
        unpermissioned_vrf_enabled: true,
    }
}

fn bet_accounts(vault: u64, escrow: u64, wallet: u64) -> UserBet {
    UserBet {
        user_key: key(RECORD),
        user: record(),
        house_key: key(HOUSE),
        house: house(),
        house_vault: token(VAULT, ASSET, HOUSE, vault),
        authority: key(PLAYER),
        escrow: token(ESCROW, ASSET, HOUSE, escrow),
        vrf: vrf(0, [0; 32]),
        oracle_queue: queue(),
        queue_authority: key(QUEUE_AUTHORITY),
        data_buffer: key(DATA_BUFFER),
        permission: key(PERMISSION),
        vrf_escrow: token(VRF_ESCROW, FEE_ASSET, ORACLE_STATE, 0),
        switchboard_program_state: key(ORACLE_STATE),
        switchboard_program: key(ORACLE_PROGRAM),
        payer: key(PLAYER),
        vrf_payer: token(PAYER_FEE_WALLET, FEE_ASSET, PLAYER, 5_000_000),
        flip_payer: token(PAYER_WALLET, ASSET, PLAYER, wallet),
        recent_blockhashes: key(BLOCKHASHES),
        token_program: key(TOKEN_PROGRAM),
    }
}

fn awaiting(game: GameType, guess: u32, bet_amount: u64, round_id: u128) -> Round {
    Round {
        round_id,
        status: RoundStatus::Awaiting,
        bet_amount,
        game_type: game,
        game_config: game.get_game_config().unwrap(),
        guess,
        result: 0,
        request_slot: 10,
        request_timestamp: 1_000,
        settle_slot: 0,
        settle_timestamp: 0,
    }
}

fn word_bytes(word: u32) -> [u8; 32] {
    let mut buffer = [0u8; 32];
    buffer[..4].copy_from_slice(&word.to_ne_bytes());
    buffer[4] = 0xAA;
    buffer
}

fn settle_accounts(round: Round, vault: u64, escrow: u64, reward: u64, word: u32) -> UserSettle {
    let mut user = record();
    user.current_round = round;
    UserSettle {
        user_key: key(RECORD),
        user,
        house_key: key(HOUSE),
        house: house(),
        escrow: token(ESCROW, ASSET, HOUSE, escrow),
        reward_address: token(REWARD, ASSET, PLAYER, reward),
        house_vault: token(VAULT, ASSET, HOUSE, vault),
        vrf: vrf(round.round_id, word_bytes(word)),
    }
}

fn bet(game_type: u32, user_guess: u32, bet_amount: u64) -> UserBetParams {
    UserBetParams { game_type, user_guess, bet_amount }
}

fn same_token(a: &TokenAccount, b: &TokenAccount) -> bool {
    a.key == b.key
        && a.mint == b.mint
        && a.owner == b.owner
        && a.amount == b.amount
        && a.delegate == b.delegate
        && a.delegated_amount == b.delegated_amount
        && a.is_frozen == b.is_frozen
        && a.is_native == b.is_native
        && a.close_authority == b.close_authority
}

fn same_settle(a: &UserSettle, b: &UserSettle) -> bool {
    a.user.current_round == b.user.current_round
        && a.user.history.idx == b.user.history.idx
        && a.user.history.rounds == b.user.history.rounds
        && same_token(&a.escrow, &b.escrow)
        && same_token(&a.reward_address, &b.reward_address)
        && same_token(&a.house_vault, &b.house_vault)
}

fn same_bet(a: &UserBet, b: &UserBet) -> bool {
    a.user.current_round == b.user.current_round
        && a.user.history.idx == b.user.history.idx
        && a.user.history.rounds == b.user.history.rounds
        && same_token(&a.escrow, &b.escrow)
        && same_token(&a.flip_payer, &b.flip_payer)
        && same_token(&a.house_vault, &b.house_vault)
}

// ---- the ledger -----------------------------------------------------------

#[test]
fn transfer_moves_the_amount() {
    let mut from = token(1, ASSET, PLAYER, 500);
    let mut to = token(2, ASSET, HOUSE, 20);
    assert_eq!(transfer(&mut from, &mut to, &key(PLAYER), 120), Ok(()));
    assert_eq!(from.amount, 380);
    assert_eq!(to.amount, 140);
    assert_eq!(transfer(&mut from, &mut to, &key(PLAYER), 0), Ok(()));
    assert_eq!((from.amount, to.amount), (380, 140));
    assert_eq!(transfer(&mut from, &mut to, &key(PLAYER), 380), Ok(()));
    assert_eq!((from.amount, to.amount), (0, 520));
}

#[test]
fn transfer_refusals_change_nothing() {
    let mut from = token(1, ASSET, PLAYER, 500);
    let mut to = token(2, ASSET, HOUSE, 20);
    assert_eq!(transfer(&mut from, &mut to, &key(PLAYER), 501), Err(TokenError::InsufficientFunds));
    assert_eq!(transfer(&mut from, &mut to, &key(HOUSE), 5), Err(TokenError::OwnerMismatch));
    let mut other = token(3, FEE_ASSET, HOUSE, 20);
    assert_eq!(transfer(&mut from, &mut other, &key(PLAYER), 5), Err(TokenError::MintMismatch));
    let mut full = token(4, ASSET, HOUSE, u64::MAX - 4);
    assert_eq!(transfer(&mut from, &mut full, &key(PLAYER), 5), Err(TokenError::Overflow));
    assert_eq!(transfer(&mut from, &mut full, &key(PLAYER), 4), Ok(()));
    assert_eq!(full.amount, u64::MAX);
    assert_eq!(from.amount, 496);
    assert_eq!(to.amount, 20);
    assert_eq!(other.amount, 20);
    // The funds are checked before the asset, the asset before the authority.
    assert_eq!(transfer(&mut from, &mut other, &key(HOUSE), 900), Err(TokenError::InsufficientFunds));
    assert_eq!(transfer(&mut from, &mut other, &key(HOUSE), 1), Err(TokenError::MintMismatch));
}

#[test]
fn mint_to_issues_into_the_account() {
    let mut mint = asset(1_000);
    let mut to = token(2, ASSET, PLAYER, 7);
    assert_eq!(mint_to(&mut mint, &mut to, &key(HOUSE), 93), Ok(()));
    assert_eq!(to.amount, 100);
    assert_eq!(mint.supply, 1_093);
    assert_eq!(mint_to(&mut mint, &mut to, &key(PLAYER), 1), Err(TokenError::OwnerMismatch));
    let mut other = token(3, FEE_ASSET, PLAYER, 0);
    assert_eq!(mint_to(&mut mint, &mut other, &key(HOUSE), 1), Err(TokenError::MintMismatch));
    assert_eq!(mint_to(&mut mint, &mut to, &key(HOUSE), u64::MAX - 1_000), Err(TokenError::Overflow));
    mint.mint_authority = None;
    assert_eq!(mint_to(&mut mint, &mut to, &key(HOUSE), 1), Err(TokenError::FixedSupply));
    assert_eq!((to.amount, mint.supply), (100, 1_093));
}

#[test]
fn custody_changes_hands_on_the_owners_word() {
    let mut account = token(ESCROW, ASSET, PLAYER, 5);
    assert_eq!(set_owner(&mut account, &key(HOUSE), key(HOUSE)), Err(TokenError::OwnerMismatch));
    assert_eq!(account.owner, key(PLAYER));
    assert_eq!(set_owner(&mut account, &key(PLAYER), key(HOUSE)), Ok(()));
    assert_eq!(account.owner, key(HOUSE));
    assert_eq!(
        set_close_authority(&mut account, &key(PLAYER), Some(key(PLAYER))),
        Err(TokenError::OwnerMismatch)
    );
    assert_eq!(set_close_authority(&mut account, &key(HOUSE), Some(key(PAYER_WALLET))), Ok(()));
    assert_eq!(account.close_authority, Some(key(PAYER_WALLET)));
    // Once there is a close authority, only it can name another.
    assert_eq!(set_close_authority(&mut account, &key(HOUSE), None), Err(TokenError::OwnerMismatch));
    assert_eq!(set_close_authority(&mut account, &key(PAYER_WALLET), None), Ok(()));
    assert_eq!(account.close_authority, None);
}

// ---- funding the escrow ---------------------------------------------------

#[test]
fn fund_escrow_tops_up_what_is_missing() {
    let mut payer = token(PAYER_WALLET, ASSET, PLAYER, 5_000);
    let mut escrow = token(ESCROW, ASSET, HOUSE, 300);
    assert_eq!(fund_escrow(&mut payer, &mut escrow, &key(PLAYER), 1_000), Ok(700));
    assert_eq!(escrow.amount, 1_000);
    assert_eq!(payer.amount, 4_300);
}

#[test]
fn fund_escrow_twice_moves_funds_once() {
    let mut payer = token(PAYER_WALLET, ASSET, PLAYER, 5_000);
    let mut escrow = token(ESCROW, ASSET, HOUSE, 0);
    assert_eq!(fund_escrow(&mut payer, &mut escrow, &key(PLAYER), 1_000), Ok(1_000));
    assert_eq!(fund_escrow(&mut payer, &mut escrow, &key(PLAYER), 1_000), Ok(0));
    assert_eq!(escrow.amount, 1_000);
    assert_eq!(payer.amount, 4_000);
}

#[test]
fn fund_escrow_leaves_a_funded_escrow_alone() {
    let mut payer = token(PAYER_WALLET, ASSET, PLAYER, 0);
    let mut escrow = token(ESCROW, ASSET, HOUSE, 1_500);
    // Not even the authority is looked at where nothing is to move.
    assert_eq!(fund_escrow(&mut payer, &mut escrow, &key(HOUSE), 1_000), Ok(0));
    assert_eq!(fund_escrow(&mut payer, &mut escrow, &key(HOUSE), 1_500), Ok(0));
    assert_eq!((payer.amount, escrow.amount), (0, 1_500));
    assert_eq!(
        fund_escrow(&mut payer, &mut escrow, &key(PLAYER), 1_501),
        Err(TokenError::InsufficientFunds)
    );
    assert_eq!((payer.amount, escrow.amount), (0, 1_500));
}

// ---- placing a bet --------------------------------------------------------

#[test]
fn validate_accepts_a_sound_bet() {
    let accounts = bet_accounts(10_000, 0, 1_000);
    assert_eq!(accounts.validate(&clock(1, 100), &bet(1, 1, 1_000)), Ok(()));
    assert_eq!(accounts.validate(&clock(1, 100), &bet(1, 2, 1_000)), Ok(()));
    assert_eq!(accounts.validate(&clock(1, 100), &bet(3, 20, 0)), Ok(()));
}

#[test]
fn validate_refuses_a_live_round() {
    let mut accounts = bet_accounts(10_000, 0, 1_000);
    accounts.user.current_round = awaiting(GameType::CoinFlip, 1, 10, 1);
    assert_eq!(
        accounts.validate(&clock(11, 1_059), &bet(1, 1, 10)),
        Err(VrfFlipError::CurrentRoundStillActive)
    );
    // Even a request that is wrong in every other way is told so first.
    assert_eq!(
        accounts.validate(&clock(11, 1_000), &bet(77, 0, u64::MAX)),
        Err(VrfFlipError::CurrentRoundStillActive)
    );
    // After sixty seconds the round counts as abandoned.
    assert_eq!(accounts.validate(&clock(11, 1_060), &bet(1, 1, 10)), Ok(()));
}

#[test]
fn validate_refuses_unknown_games() {
    let accounts = bet_accounts(10_000, 0, 1_000);
    assert_eq!(accounts.validate(&clock(1, 100), &bet(0, 1, 10)), Err(VrfFlipError::InvalidGameType));
    assert_eq!(accounts.validate(&clock(1, 100), &bet(4, 1, 10)), Err(VrfFlipError::InvalidGameType));
}

#[test]
fn validate_refuses_a_guess_out_of_range() {
    let accounts = bet_accounts(10_000, 0, 1_000);
    assert_eq!(accounts.validate(&clock(1, 100), &bet(1, 0, 10)), Err(VrfFlipError::InvalidBet));
    assert_eq!(accounts.validate(&clock(1, 100), &bet(1, 3, 10)), Err(VrfFlipError::InvalidBet));
    assert_eq!(accounts.validate(&clock(1, 100), &bet(2, 7, 10)), Err(VrfFlipError::InvalidBet));
    assert_eq!(accounts.validate(&clock(1, 100), &bet(3, 21, 10)), Err(VrfFlipError::InvalidBet));
    assert_eq!(accounts.validate(&clock(1, 100), &bet(2, 6, 10)), Ok(()));
}

#[test]
fn bet_exceeds_ceiling() {
    let accounts = bet_accounts(900, 0, 1_000);
    assert_eq!(
        accounts.validate(&clock(1, 100), &bet(1, 1, 100)),
        Err(VrfFlipError::MaxBetAmountExceeded)
    );
    assert_eq!(accounts.validate(&clock(1, 100), &bet(1, 1, 90)), Ok(()));
    assert_eq!(
        accounts.validate(&clock(1, 100), &bet(1, 1, 91)),
        Err(VrfFlipError::MaxBetAmountExceeded)
    );
}

#[test]
fn validate_refuses_a_wager_over_the_limit() {
    let accounts = bet_accounts(u64::MAX, 0, u64::MAX);
    assert_eq!(accounts.validate(&clock(1, 100), &bet(1, 1, 100_000_000_000)), Ok(()));
    assert_eq!(
        accounts.validate(&clock(1, 100), &bet(1, 1, 100_000_000_001)),
        Err(VrfFlipError::MaxBetAmountExceeded)
    );
    // Ten times the wager is compared as a number, however large.
    assert_eq!(
        accounts.validate(&clock(1, 100), &bet(1, 1, u64::MAX)),
        Err(VrfFlipError::MaxBetAmountExceeded)
    );
    assert_eq!(
        accounts.validate(&clock(1, 100), &bet(1, 1, u64::MAX / 10 + 1)),
        Err(VrfFlipError::MaxBetAmountExceeded)
    );
}

#[test]
fn validate_enforces_the_cooldown() {
    let mut accounts = bet_accounts(10_000, 0, 1_000);
    let mut settled = awaiting(GameType::CoinFlip, 1, 10, 1);
    settled.settle(&[2], &clock(11, 1_002)).unwrap();
    accounts.user.current_round = settled;
    assert_eq!(
        accounts.validate(&clock(12, 1_009), &bet(1, 1, 10)),
        Err(VrfFlipError::FlipRequestedTooSoon)
    );
    assert_eq!(accounts.validate(&clock(12, 1_010), &bet(1, 1, 10)), Ok(()));
    // A round that was requested at time zero never holds a bet back.
    accounts.user.current_round.request_timestamp = 0;
    assert_eq!(accounts.validate(&clock(12, 5), &bet(1, 1, 10)), Ok(()));
}

#[test]
fn validate_refuses_a_payer_without_the_wager() {
    let accounts = bet_accounts(10_000, 0, 999);
    assert_eq!(
        accounts.validate(&clock(1, 100), &bet(1, 1, 1_000)),
        Err(VrfFlipError::InsufficientFunds)
    );
    assert_eq!(accounts.validate(&clock(1, 100), &bet(1, 1, 999)), Ok(()));
}

#[test]
fn validate_refuses_a_request_without_the_fee() {
    let mut accounts = bet_accounts(10_000, 0, 1_000);
    accounts.vrf_payer.amount = 1_999_999;
    assert_eq!(
        accounts.validate(&clock(1, 100), &bet(1, 1, 10)),
        Err(VrfFlipError::InsufficientFunds)
    );
    accounts.vrf_escrow.amount = 1;
    assert_eq!(accounts.validate(&clock(1, 100), &bet(1, 1, 10)), Ok(()));
    // A sum beyond the largest amount counts as nothing.
    accounts.vrf_payer.amount = u64::MAX;
    assert_eq!(
        accounts.validate(&clock(1, 100), &bet(1, 1, 10)),
        Err(VrfFlipError::InsufficientFunds)
    );
}

#[test]
fn bet_funds_the_escrow_and_opens_the_round() {
    let mut accounts = bet_accounts(100_000, 300, 5_000);
    let placed = user_bet(&mut accounts, &clock(42, 7_000), bet(2, 3, 1_000)).unwrap();
    assert_eq!(placed.escrow_transfer_amount, 700);
    assert_eq!(accounts.escrow.amount, 1_000);
    assert_eq!(accounts.flip_payer.amount, 4_300);
    assert_eq!(accounts.house_vault.amount, 100_000);
    let round = accounts.user.current_round;
    assert_eq!(round.round_id, 1);
    assert_eq!(round.status, RoundStatus::Awaiting);
    assert_eq!(round.game_type, GameType::SixSidedDiceRoll);
    assert_eq!(round.game_config.max, 6);
    assert_eq!(round.game_config.payout_multiplier, 5);
    assert_eq!(round.guess, 3);
    assert_eq!(round.bet_amount, 1_000);
    assert_eq!(round.request_slot, 42);
    assert_eq!(round.request_timestamp, 7_000);
    let event = placed.event;
    assert_eq!(event.round_id, 1);
    assert_eq!(event.user, key(RECORD));
    assert_eq!(event.game_type, GameType::SixSidedDiceRoll);
    assert_eq!(event.bet_amount, 1_000);
    assert_eq!(event.guess, 3);
    assert_eq!(event.slot, 42);
    assert_eq!(event.timestamp, 7_000);
}

#[test]
fn bet_makes_the_request_for_randomness() {
    let mut accounts = bet_accounts(100_000, 0, 5_000);
    let placed = user_bet(&mut accounts, &clock(42, 7_000), bet(1, 1, 10)).unwrap();
    let request = placed.request;
    assert_eq!(request.program, key(ORACLE_PROGRAM));
    assert_eq!(request.authority, key(RECORD));
    assert_eq!(request.vrf, key(VRF));
    assert_eq!(request.oracle_queue, key(QUEUE));
    assert_eq!(request.queue_authority, key(QUEUE_AUTHORITY));
    assert_eq!(request.data_buffer, key(DATA_BUFFER));
    assert_eq!(request.permission, key(PERMISSION));
    assert_eq!(request.escrow, key(VRF_ESCROW));
    assert_eq!(request.payer_wallet, key(PAYER_FEE_WALLET));
    assert_eq!(request.payer_authority, key(PLAYER));
    assert_eq!(request.recent_blockhashes, key(BLOCKHASHES));
    assert_eq!(request.program_state, key(ORACLE_STATE));
    assert_eq!(request.token_program, key(TOKEN_PROGRAM));
    assert_eq!(request.state_bump, 3);
    assert_eq!(request.permission_bump, 4);
    assert_eq!(request.signer.house, key(HOUSE));
    assert_eq!(request.signer.authority, key(PLAYER));
    assert_eq!(request.signer.bump, 254);
}

#[test]
fn request_randomness_puts_each_account_in_its_role() {
    let ctx = RequestRandomness {
        switchboard_program: key(50),
        house: key(51),
        authority: key(52),
        bumps: RequestRandomnessBumps { user: 7, switchboard_state: 8, vrf_permission: 9 },
        accounts: RequestRandomnessAccounts {
            user: key(60),
            vrf: key(61),
            oracle_queue: key(62),
            queue_authority: key(63),
            data_buffer: key(64),
            permission: key(65),
            vrf_escrow: key(66),
            vrf_payer: key(67),
            payer_authority: key(68),
            recent_blockhashes: key(69),
            switchboard_program_state: key(70),
            token_program: key(71),
        },
    };
    let request = UserState::request_randomness(&ctx);
    assert_eq!(request.program, key(50));
    assert_eq!(request.authority, key(60));
    assert_eq!(request.vrf, key(61));
    assert_eq!(request.escrow, key(66));
    assert_eq!(request.payer_wallet, key(67));
    assert_eq!(request.payer_authority, key(68));
    assert_eq!(request.program_state, key(70));
    assert_eq!((request.state_bump, request.permission_bump), (8, 9));
    assert_eq!(
        request.signer.seeds(),
        vec![b"USERSTATESEED".to_vec(), vec![51u8; 32], vec![52u8; 32], vec![7u8]]
    );
}

#[test]
fn signer_seeds() {
    let signer = UserSigner { house: key(HOUSE), authority: key(PLAYER), bump: 254 };
    let seeds = signer.seeds();
    assert_eq!(seeds.len(), 4);
    assert_eq!(seeds[0], b"USERSTATESEED".to_vec());
    assert_eq!(seeds[1], vec![HOUSE; 32]);
    assert_eq!(seeds[2], vec![PLAYER; 32]);
    assert_eq!(seeds[3], vec![254u8]);
}

#[test]
fn bet_on_a_funded_escrow_moves_nothing() {
    let mut accounts = bet_accounts(100_000, 2_000, 5_000);
    let placed = user_bet(&mut accounts, &clock(42, 7_000), bet(1, 1, 1_000)).unwrap();
    assert_eq!(placed.escrow_transfer_amount, 0);
    assert_eq!(accounts.escrow.amount, 2_000);
    assert_eq!(accounts.flip_payer.amount, 5_000);
}

#[test]
fn second_bet_on_a_live_round_is_refused() {
    let mut accounts = bet_accounts(100_000, 0, 5_000);
    user_bet(&mut accounts, &clock(42, 7_000), bet(1, 1, 1_000)).unwrap();
    let before = accounts;
    for later in [7_000i64, 7_001, 7_059] {
        for params in [bet(1, 1, 1_000), bet(2, 6, 5), bet(9, 9, u64::MAX)] {
            assert_eq!(
                user_bet(&mut accounts, &clock(43, later), params).err(),
                Some(ActionError::Flip(VrfFlipError::CurrentRoundStillActive))
            );
            assert!(same_bet(&accounts, &before));
        }
    }
}

#[test]
fn bet_after_an_abandoned_round_supersedes_it() {
    let mut accounts = bet_accounts(100_000, 0, 5_000);
    user_bet(&mut accounts, &clock(42, 7_000), bet(1, 1, 1_000)).unwrap();
    let abandoned = accounts.user.current_round;
    accounts.vrf.counter = 1;
    let placed = user_bet(&mut accounts, &clock(50, 7_060), bet(2, 2, 400)).unwrap();
    assert_eq!(placed.escrow_transfer_amount, 0);
    assert_eq!(placed.event.round_id, 2);
    assert_eq!(accounts.user.current_round.round_id, 2);
    assert_eq!(accounts.user.history.rounds[0], abandoned);
    assert_eq!(accounts.user.history.idx, 1);
}

#[test]
fn bet_whose_transfer_fails_changes_nothing() {
    // The payer's wallet is not the signer's: the ledger refuses the move.
    let mut accounts = bet_accounts(100_000, 0, 5_000);
    accounts.authority = key(PLAYER);
    accounts.flip_payer.owner = key(HOUSE_ADMIN);
    let before = accounts;
    assert_eq!(
        accounts.actuate(&clock(42, 7_000), &bet(1, 1, 1_000)).err(),
        Some(ActionError::Token(TokenError::OwnerMismatch))
    );
    assert!(same_bet(&accounts, &before));
    // The escrow has no room for the wager.
    let mut accounts = bet_accounts(100_000, 0, 5_000);
    accounts.escrow.amount = 10;
    accounts.flip_payer.amount = 20;
    let before = accounts;
    assert_eq!(
        accounts.actuate(&clock(42, 7_000), &bet(1, 1, 1_000)).err(),
        Some(ActionError::Token(TokenError::InsufficientFunds))
    );
    assert!(same_bet(&accounts, &before));
}

#[test]
fn bet_on_an_unknown_game_changes_nothing() {
    let mut accounts = bet_accounts(100_000, 0, 5_000);
    let before = accounts;
    for game in [0u32, 4, 1_000] {
        assert_eq!(
            accounts.actuate(&clock(42, 7_000), &bet(game, 1, 1_000)).err(),
            Some(ActionError::Flip(VrfFlipError::InvalidGameType))
        );
        assert!(same_bet(&accounts, &before));
    }
}

#[test]
fn bet_accounts_must_belong_together() {
    let sound = bet_accounts(100_000, 0, 5_000);
    assert_eq!(sound.check_accounts(), Ok(()));
    let has_one = Err(ActionError::Account(AccountError::HasOne));
    let token_mint = Err(ActionError::Account(AccountError::TokenMint));
    let token_owner = Err(ActionError::Account(AccountError::TokenOwner));
    let raw = Err(ActionError::Account(AccountError::Raw));

    let mut a = sound;
    a.vrf.key = key(99);
    assert_eq!(a.check_accounts(), has_one);
    let mut a = sound;
    a.authority = key(99);
    assert_eq!(a.check_accounts(), has_one);
    let mut a = sound;
    a.escrow.key = key(99);
    assert_eq!(a.check_accounts(), has_one);
    let mut a = sound;
    a.house_vault.key = key(99);
    assert_eq!(a.check_accounts(), has_one);
    let mut a = sound;
    a.house_vault.mint = key(99);
    assert_eq!(a.check_accounts(), token_mint);
    let mut a = sound;
    a.house_vault.owner = key(99);
    assert_eq!(a.check_accounts(), token_owner);
    let mut a = sound;
    a.escrow.mint = key(99);
    assert_eq!(a.check_accounts(), token_mint);
    // The escrow is in the player's hands, not the house's.
    let mut a = sound;
    a.escrow.owner = key(PLAYER);
    assert_eq!(a.check_accounts(), token_owner);
    let mut a = sound;
    a.vrf.authority = key(PLAYER);
    assert_eq!(a.check_accounts(), raw);
    let mut a = sound;
    a.vrf.escrow = key(99);
    assert_eq!(a.check_accounts(), raw);
    let mut a = sound;
    a.oracle_queue.data_buffer = key(99);
    assert_eq!(a.check_accounts(), has_one);
    let mut a = sound;
    a.oracle_queue.authority = key(99);
    assert_eq!(a.check_accounts(), raw);
    let mut a = sound;
    a.vrf_escrow.mint = key(ASSET);
    assert_eq!(a.check_accounts(), token_mint);
    let mut a = sound;
    a.vrf_escrow.owner = key(PLAYER);
    assert_eq!(a.check_accounts(), token_owner);
    let mut a = sound;
    a.vrf_payer.mint = key(ASSET);
    assert_eq!(a.check_accounts(), token_mint);
    let mut a = sound;
    a.vrf_payer.owner = key(99);
    assert_eq!(a.check_accounts(), token_owner);
    let mut a = sound;
    a.flip_payer.mint = key(FEE_ASSET);
    assert_eq!(a.check_accounts(), token_mint);
    let mut a = sound;
    a.flip_payer.owner = key(99);
    assert_eq!(a.check_accounts(), token_owner);

    // The accounts are checked before the request.
    let mut a = sound;
    a.escrow.owner = key(PLAYER);
    let before = a;
    assert_eq!(
        user_bet(&mut a, &clock(1, 100), bet(0, 0, 0)).err(),
        Some(ActionError::Account(AccountError::TokenOwner))
    );
    assert!(same_bet(&a, &before));
}

// ---- settling a bet -------------------------------------------------------

#[test]
fn coin_flip_win() {
    let round = awaiting(GameType::CoinFlip, 1, 1000, 1);
    let mut accounts = settle_accounts(round, 50_000, 1_000, 0, 2);
    let settled = accounts.settle_with(&clock(20, 1_030), &[2]).unwrap();
    assert_eq!(accounts.user.current_round.result, 1);
    assert_eq!(accounts.user.current_round.status, RoundStatus::Settled);
    assert_eq!(settled.payout, 1000);
    assert_eq!(settled.escrow_release, 1000);
    assert_eq!(accounts.reward_address.amount, 2000);
    assert_eq!(accounts.house_vault.amount, 49_000);
    assert_eq!(accounts.escrow.amount, 0);
    let event = settled.event;
    assert_eq!(event.round_id, 1);
    assert_eq!(event.user, key(RECORD));
    assert!(event.user_won);
    assert_eq!(event.game_type, GameType::CoinFlip);
    assert_eq!(event.bet_amount, 1000);
    assert_eq!(event.escrow_change, 2000);
    assert_eq!(event.guess, 1);
    assert_eq!(event.result, 1);
    assert_eq!(event.slot, 20);
    assert_eq!(event.timestamp, 1_030);
}

#[test]
fn six_sided_loss() {
    let round = awaiting(GameType::SixSidedDiceRoll, 3, 200, 1);
    let mut accounts = settle_accounts(round, 50_000, 200, 40, 7);
    let settled = accounts.settle_with(&clock(20, 1_030), &[7]).unwrap();
    assert_eq!(accounts.user.current_round.result, 2);
    assert_eq!(settled.payout, 0);
    assert_eq!(settled.escrow_release, 200);
    assert!(!settled.event.user_won);
    assert_eq!(settled.event.escrow_change, 200);
    assert_eq!(settled.event.result, 2);
    assert_eq!(accounts.house_vault.amount, 50_200);
    assert_eq!(accounts.escrow.amount, 0);
    assert_eq!(accounts.reward_address.amount, 40);
}

#[test]
fn loss_leaves_the_excess_in_the_escrow() {
    let round = awaiting(GameType::SixSidedDiceRoll, 3, 200, 1);
    let mut accounts = settle_accounts(round, 50_000, 950, 40, 7);
    let settled = accounts.settle_with(&clock(20, 1_030), &[7]).unwrap();
    assert_eq!(settled.escrow_release, 200);
    assert_eq!(accounts.escrow.amount, 750);
    assert_eq!(accounts.house_vault.amount, 50_200);
}

#[test]
fn win_drains_the_whole_escrow() {
    let round = awaiting(GameType::SixSidedDiceRoll, 3, 200, 1);
    let mut accounts = settle_accounts(round, 50_000, 950, 40, 8);
    let settled = accounts.settle_with(&clock(20, 1_030), &[8]).unwrap();
    assert_eq!(settled.payout, 1_000);
    assert_eq!(settled.escrow_release, 950);
    assert_eq!(settled.event.escrow_change, 1_200);
    assert_eq!(accounts.escrow.amount, 0);
    assert_eq!(accounts.reward_address.amount, 40 + 1_000 + 950);
    assert_eq!(accounts.house_vault.amount, 49_000);
}

#[test]
fn settlement_conserves_value() {
    for word in 0u32..40 {
        let round = awaiting(GameType::TwentySidedDiceRoll, 11, 300, 1);
        let mut accounts = settle_accounts(round, 80_000, 700, 55, word);
        let total = 80_000u64 + 700 + 55;
        accounts.settle_with(&clock(20, 1_030), &[word]).unwrap();
        assert_eq!(
            accounts.house_vault.amount + accounts.escrow.amount + accounts.reward_address.amount,
            total
        );
        assert_eq!(accounts.user.current_round.result == 11, word % 20 == 10);
    }
}

#[test]
fn settlement_reads_the_first_word_of_the_oracles_answer() {
    // The answer's first word is 7, in the byte order of this machine.
    let round = awaiting(GameType::SixSidedDiceRoll, 2, 200, 1);
    let mut accounts = settle_accounts(round, 50_000, 200, 0, 7);
    let settled = user_settle(&mut accounts, &clock(20, 1_030), UserSettleParams {}).unwrap();
    assert_eq!(settled.event.result, 2);
    assert!(settled.event.user_won);
    assert_eq!(settled.payout, 1_000);
    assert_eq!(accounts.reward_address.amount, 1_200);
    // A large word, all four bytes of which count.
    let round = awaiting(GameType::TwentySidedDiceRoll, 2, 200, 1);
    let mut accounts = settle_accounts(round, 50_000, 200, 0, 0x0102_0304);
    let settled = user_settle(&mut accounts, &clock(20, 1_030), UserSettleParams {}).unwrap();
    assert_eq!(settled.event.result, 0x0102_0304 % 20 + 1);
}

#[test]
fn settlement_of_a_settled_round_is_refused() {
    let round = awaiting(GameType::CoinFlip, 1, 1000, 1);
    let mut accounts = settle_accounts(round, 50_000, 1_000, 0, 2);
    user_settle(&mut accounts, &clock(20, 1_030), UserSettleParams {}).unwrap();
    let before = accounts;
    assert_eq!(
        user_settle(&mut accounts, &clock(21, 1_031), UserSettleParams {}).err(),
        Some(ActionError::Flip(VrfFlipError::CurrentRoundAlreadyClosed))
    );
    assert!(same_settle(&accounts, &before));
    assert_eq!(accounts.validate(&UserSettleParams {}), Err(VrfFlipError::CurrentRoundAlreadyClosed));
}

#[test]
fn settlement_without_a_bet_is_refused() {
    let mut accounts = settle_accounts(Round::default(), 50_000, 1_000, 0, 2);
    assert_eq!(
        user_settle(&mut accounts, &clock(21, 1_031), UserSettleParams {}).err(),
        Some(ActionError::Flip(VrfFlipError::CurrentRoundAlreadyClosed))
    );
}

#[test]
fn replay_rejection() {
    // The answer is for round 5; the round in play is round 6.
    let round = awaiting(GameType::CoinFlip, 1, 1000, 6);
    let mut accounts = settle_accounts(round, 50_000, 1_000, 0, 2);
    accounts.vrf.counter = 5;
    let before = accounts;
    assert_eq!(
        user_settle(&mut accounts, &clock(20, 1_030), UserSettleParams {}).err(),
        Some(ActionError::Flip(VrfFlipError::IncorrectVrfCounter))
    );
    assert!(same_settle(&accounts, &before));
    assert_eq!(
        accounts.verify_answer(),
        Err(ActionError::Flip(VrfFlipError::IncorrectVrfCounter))
    );
    accounts.vrf.counter = 7;
    assert_eq!(
        accounts.actuate(&clock(20, 1_030), &UserSettleParams {}).err(),
        Some(ActionError::Flip(VrfFlipError::IncorrectVrfCounter))
    );
    assert!(same_settle(&accounts, &before));
}

#[test]
fn answer_of_another_players_oracle_account_is_refused() {
    let round = awaiting(GameType::CoinFlip, 1, 1000, 1);
    let mut accounts = settle_accounts(round, 50_000, 1_000, 0, 2);
    accounts.vrf.authority = key(99);
    let before = accounts;
    assert_eq!(
        user_settle(&mut accounts, &clock(20, 1_030), UserSettleParams {}).err(),
        Some(ActionError::Flip(VrfFlipError::InvalidVrfAuthority))
    );
    assert_eq!(
        accounts.actuate(&clock(20, 1_030), &UserSettleParams {}).err(),
        Some(ActionError::Flip(VrfFlipError::InvalidVrfAuthority))
    );
    assert!(same_settle(&accounts, &before));
    // Another randomness account than the one the record names.
    let mut accounts = settle_accounts(round, 50_000, 1_000, 0, 2);
    accounts.vrf.key = key(99);
    assert_eq!(
        user_settle(&mut accounts, &clock(20, 1_030), UserSettleParams {}).err(),
        Some(ActionError::Account(AccountError::HasOne))
    );
}

#[test]
fn settlement_waits_for_the_oracles_answer() {
    let round = awaiting(GameType::CoinFlip, 1, 1000, 1);
    let mut accounts = settle_accounts(round, 50_000, 1_000, 0, 2);
    accounts.vrf.result = [0; 32];
    let before = accounts;
    assert_eq!(
        user_settle(&mut accounts, &clock(20, 1_030), UserSettleParams {}).err(),
        Some(ActionError::VrfEmpty)
    );
    assert!(same_settle(&accounts, &before));
    assert_eq!(accounts.vrf.get_result(), None);
    // One byte that is not zero, anywhere, makes a result.
    let mut buffer = [0u8; 32];
    buffer[31] = 1;
    accounts.vrf.result = buffer;
    assert_eq!(accounts.vrf.get_result(), Some(buffer));
    assert_eq!(accounts.verify_answer(), Ok(buffer));
    let settled = user_settle(&mut accounts, &clock(20, 1_030), UserSettleParams {}).unwrap();
    assert_eq!(settled.event.result, 1);
}

#[test]
fn settlement_whose_transfer_fails_changes_nothing() {
    // The vault cannot pay the winnings.
    let round = awaiting(GameType::SixSidedDiceRoll, 3, 200, 1);
    let mut accounts = settle_accounts(round, 999, 200, 0, 8);
    let before = accounts;
    assert_eq!(
        accounts.settle_with(&clock(20, 1_030), &[8]).err(),
        Some(ActionError::Token(TokenError::InsufficientFunds))
    );
    assert!(same_settle(&accounts, &before));
    assert_eq!(accounts.user.current_round.status, RoundStatus::Awaiting);
    // The escrow does not hold the wager that was lost.
    let mut accounts = settle_accounts(round, 999, 199, 0, 7);
    let before = accounts;
    assert_eq!(
        accounts.settle_with(&clock(20, 1_030), &[7]).err(),
        Some(ActionError::Token(TokenError::InsufficientFunds))
    );
    assert!(same_settle(&accounts, &before));
    // The reward account has no room for the escrow: the winnings that were
    // moved before are taken back too.
    let mut accounts = settle_accounts(round, 5_000, 200, u64::MAX - 1_100, 8);
    let before = accounts;
    assert_eq!(
        accounts.settle_with(&clock(20, 1_030), &[8]).err(),
        Some(ActionError::Token(TokenError::Overflow))
    );
    assert!(same_settle(&accounts, &before));
    // The escrow is not in the house's custody.
    let mut accounts = settle_accounts(round, 5_000, 200, 0, 7);
    accounts.escrow.owner = key(PLAYER);
    let before = accounts;
    assert_eq!(
        accounts.settle_with(&clock(20, 1_030), &[7]).err(),
        Some(ActionError::Token(TokenError::OwnerMismatch))
    );
    assert!(same_settle(&accounts, &before));
}

#[test]
fn settlement_with_an_outcome_of_zero_is_refused() {
    // A configuration whose smallest outcome is zero can give the outcome
    // zero, which stands for "no result".
    let mut round = awaiting(GameType::CoinFlip, 1, 1000, 1);
    round.game_config.min = 0;
    let mut accounts = settle_accounts(round, 50_000, 1_000, 0, 4);
    let before = accounts;
    assert_eq!(
        accounts.settle_with(&clock(20, 1_030), &[4]).err(),
        Some(ActionError::Flip(VrfFlipError::CurrentRoundStillActive))
    );
    assert!(same_settle(&accounts, &before));
}

#[test]
fn settle_accounts_must_belong_together() {
    let round = awaiting(GameType::CoinFlip, 1, 1000, 1);
    let sound = settle_accounts(round, 50_000, 1_000, 0, 2);
    assert_eq!(sound.check_accounts(), Ok(()));
    let has_one = Err(ActionError::Account(AccountError::HasOne));
    let token_mint = Err(ActionError::Account(AccountError::TokenMint));
    let token_owner = Err(ActionError::Account(AccountError::TokenOwner));

    let mut a = sound;
    a.house_key = key(99);
    assert_eq!(a.check_accounts(), has_one);
    let mut a = sound;
    a.escrow.key = key(99);
    assert_eq!(a.check_accounts(), has_one);
    let mut a = sound;
    a.reward_address.key = key(99);
    assert_eq!(a.check_accounts(), has_one);
    let mut a = sound;
    a.house_vault.key = key(99);
    assert_eq!(a.check_accounts(), has_one);
    let mut a = sound;
    a.escrow.mint = key(99);
    assert_eq!(a.check_accounts(), token_mint);
    let mut a = sound;
    a.escrow.owner = key(PLAYER);
    assert_eq!(a.check_accounts(), token_owner);
    let mut a = sound;
    a.reward_address.mint = key(99);
    assert_eq!(a.check_accounts(), token_mint);
    let mut a = sound;
    a.reward_address.owner = key(HOUSE);
    assert_eq!(a.check_accounts(), token_owner);
    let mut a = sound;
    a.house_vault.mint = key(99);
    assert_eq!(a.check_accounts(), token_mint);
    let mut a = sound;
    a.house_vault.owner = key(PLAYER);
    assert_eq!(a.check_accounts(), token_owner);
    let mut a = sound;
    a.vrf.authority = key(PLAYER);
    assert_eq!(a.check_accounts(), Err(ActionError::Flip(VrfFlipError::InvalidVrfAuthority)));
}

// ---- opening the house, admitting a player, the faucet ---------------------

fn house_init_accounts() -> HouseInit {
    HouseInit {
        house_key: key(HOUSE),
        house_bump: 255,
        house: HouseState {
            bump: 0,
            authority: Pubkey::default(),
            mint: Pubkey::default(),
            house_vault: Pubkey::default(),
            switchboard_queue: Pubkey::default(),
            switchboard_mint: Pubkey::default(),
        },
        authority: key(HOUSE_ADMIN),
        switchboard_mint: key(FEE_ASSET),
        switchboard_queue: queue(),
        mint: asset(0),
        house_vault: token(VAULT, ASSET, HOUSE, 0),
        payer: key(HOUSE_ADMIN),
    }
}

fn user_init_accounts() -> UserInit {
    let mut blank = record();
    blank.bump = 0;
    blank.authority = Pubkey::default();
    blank.house = Pubkey::default();
    blank.escrow = Pubkey::default();
    blank.reward_address = Pubkey::default();
    blank.vrf = Pubkey::default();
    blank.switchboard_state_bump = 0;
    blank.vrf_permission_bump = 0;
    UserInit {
        user_key: key(RECORD),
        user_bump: 254,
        user: blank,
        house_key: key(HOUSE),
        house: house(),
        mint: asset(100_000_000_000_000_000),
        authority: key(PLAYER),
        escrow: token(ESCROW, ASSET, PLAYER, 0),
        reward_address: token(REWARD, ASSET, PLAYER, 0),
        vrf: vrf(0, [0; 32]),
        payer: key(PLAYER),
    }
}

fn airdrop_accounts(last: u64, wallet: u64) -> UserAirdrop {
    let mut user = record();
    user.last_airdrop_request_slot = last;
    UserAirdrop {
        user_key: key(RECORD),
        user,
        house_key: key(HOUSE),
        house: house(),
        house_vault: token(VAULT, ASSET, HOUSE, 1_000_000),
        mint: asset(1_000_000),
        authority: key(PLAYER),
        airdrop_token_wallet: token(PAYER_WALLET, ASSET, PLAYER, wallet),
    }
}

#[test]
fn house_init_endows_the_vault() {
    let mut accounts = house_init_accounts();
    assert_eq!(accounts.validate(&HouseInitParams {}), Ok(()));
    assert_eq!(house_init(&mut accounts, HouseInitParams {}), Ok(()));
    assert_eq!(accounts.house_vault.amount, 100_000_000_000_000_000);
    assert_eq!(accounts.mint.supply, 100_000_000_000_000_000);
    assert_eq!(accounts.house.bump, 255);
    assert_eq!(accounts.house.authority, key(HOUSE_ADMIN));
    assert_eq!(accounts.house.mint, key(ASSET));
    assert_eq!(accounts.house.house_vault, key(VAULT));
    assert_eq!(accounts.house.switchboard_queue, key(QUEUE));
    assert_eq!(accounts.house.switchboard_mint, key(FEE_ASSET));
}

#[test]
fn house_init_refusals() {
    let mut accounts = house_init_accounts();
    accounts.switchboard_queue.unpermissioned_vrf_enabled = false;
    assert_eq!(
        house_init(&mut accounts, HouseInitParams {}),
        Err(ActionError::Flip(VrfFlipError::OracleQueueRequiresPermissions))
    );
    assert_eq!(accounts.house_vault.amount, 0);
    let mut accounts = house_init_accounts();
    accounts.mint.mint_authority = Some(key(HOUSE_ADMIN));
    assert_eq!(
        house_init(&mut accounts, HouseInitParams {}),
        Err(ActionError::Account(AccountError::MintAuthority))
    );
    let mut accounts = house_init_accounts();
    accounts.mint.freeze_authority = None;
    assert_eq!(
        house_init(&mut accounts, HouseInitParams {}),
        Err(ActionError::Account(AccountError::MintFreezeAuthority))
    );
    let mut accounts = house_init_accounts();
    accounts.mint.decimals = 6;
    assert_eq!(
        house_init(&mut accounts, HouseInitParams {}),
        Err(ActionError::Account(AccountError::MintDecimals))
    );
    let mut accounts = house_init_accounts();
    accounts.house_vault.mint = key(FEE_ASSET);
    assert_eq!(
        house_init(&mut accounts, HouseInitParams {}),
        Err(ActionError::Account(AccountError::TokenMint))
    );
    let mut accounts = house_init_accounts();
    accounts.house_vault.owner = key(HOUSE_ADMIN);
    assert_eq!(
        house_init(&mut accounts, HouseInitParams {}),
        Err(ActionError::Account(AccountError::TokenOwner))
    );
    let mut accounts = house_init_accounts();
    accounts.house_vault.amount = u64::MAX;
    assert_eq!(
        house_init(&mut accounts, HouseInitParams {}),
        Err(ActionError::Token(TokenError::Overflow))
    );
    assert_eq!(accounts.house.authority, Pubkey::default());
}

#[test]
fn user_init_writes_the_record_and_hands_the_escrow_to_the_house() {
    let mut accounts = user_init_accounts();
    let params = UserInitParams { switchboard_state_bump: 3, vrf_permission_bump: 4 };
    assert_eq!(user_init(&mut accounts, params), Ok(()));
    let user = accounts.user;
    assert_eq!(user.bump, 254);
    assert_eq!(user.authority, key(PLAYER));
    assert_eq!(user.house, key(HOUSE));
    assert_eq!(user.escrow, key(ESCROW));
    assert_eq!(user.reward_address, key(REWARD));
    assert_eq!(user.vrf, key(VRF));
    assert_eq!(user.switchboard_state_bump, 3);
    assert_eq!(user.vrf_permission_bump, 4);
    assert_eq!(user.current_round, Round::default());
    assert_eq!(user.last_airdrop_request_slot, 0);
    assert_eq!(user.history.idx, 0);
    assert_eq!(user.history.max, 48);
    assert_eq!(accounts.escrow.owner, key(HOUSE));
    assert_eq!(accounts.escrow.close_authority, None);
    assert_eq!(accounts.reward_address.owner, key(PLAYER));
    assert_eq!(accounts.reward_address.close_authority, None);
    assert_eq!(accounts.reward_address.amount, 10_000_000_000);
    assert_eq!(accounts.mint.supply, 100_000_010_000_000_000);
}

#[test]
fn user_init_refusals() {
    let params = UserInitParams { switchboard_state_bump: 3, vrf_permission_bump: 4 };
    let mut accounts = user_init_accounts();
    accounts.vrf.counter = 1;
    assert_eq!(accounts.validate(&params), Err(VrfFlipError::InvalidInitialVrfCounter));
    assert_eq!(
        user_init(&mut accounts, params),
        Err(ActionError::Flip(VrfFlipError::InvalidInitialVrfCounter))
    );
    assert_eq!(accounts.escrow.owner, key(PLAYER));
    let mut accounts = user_init_accounts();
    accounts.vrf.authority = key(PLAYER);
    assert_eq!(accounts.validate(&params), Err(VrfFlipError::InvalidVrfAuthority));
    assert_eq!(
        user_init(&mut accounts, params),
        Err(ActionError::Flip(VrfFlipError::OracleQueueMismatch))
    );
    let mut accounts = user_init_accounts();
    accounts.vrf.oracle_queue = key(99);
    assert_eq!(
        user_init(&mut accounts, params),
        Err(ActionError::Flip(VrfFlipError::OracleQueueMismatch))
    );
    let mut accounts = user_init_accounts();
    accounts.mint.key = key(99);
    assert_eq!(user_init(&mut accounts, params), Err(ActionError::Account(AccountError::HasOne)));
    let mut accounts = user_init_accounts();
    accounts.escrow.owner = key(HOUSE);
    assert_eq!(
        user_init(&mut accounts, params),
        Err(ActionError::Account(AccountError::TokenOwner))
    );
    // The escrow has a close authority that is not the house: the house
    // cannot remove it, and nothing is done.
    let mut accounts = user_init_accounts();
    accounts.escrow.close_authority = Some(key(PLAYER));
    let before = accounts;
    assert_eq!(
        accounts.actuate(&params),
        Err(ActionError::Token(TokenError::OwnerMismatch))
    );
    assert!(same_token(&accounts.escrow, &before.escrow));
    assert!(same_token(&accounts.reward_address, &before.reward_address));
    assert_eq!(accounts.user.authority, Pubkey::default());
}

#[test]
fn airdrop_grants() {
    let mut accounts = airdrop_accounts(0, 5_000_000_000);
    assert_eq!(user_airdrop(&mut accounts, &clock(9_000, 1), UserAirdropParams {}), Ok(1_000_000_000));
    assert_eq!(accounts.airdrop_token_wallet.amount, 6_000_000_000);
    assert_eq!(accounts.user.last_airdrop_request_slot, 9_000);
    assert_eq!(accounts.mint.supply, 1_001_000_000);
    // At slot zero the grant is the large one.
    let mut accounts = airdrop_accounts(0, 0);
    assert_eq!(user_airdrop(&mut accounts, &clock(0, 1), UserAirdropParams {}), Ok(10_000_000_000));
    assert_eq!(accounts.airdrop_token_wallet.amount, 10_000_000_000);
    assert_eq!(accounts.user.last_airdrop_request_slot, 0);
}

#[test]
fn airdrop_refusals() {
    let mut accounts = airdrop_accounts(4_001, 0);
    assert_eq!(
        user_airdrop(&mut accounts, &clock(9_000, 1), UserAirdropParams {}),
        Err(ActionError::Flip(VrfFlipError::AirdropRequestedTooSoon))
    );
    assert_eq!(accounts.airdrop_token_wallet.amount, 0);
    assert_eq!(accounts.user.last_airdrop_request_slot, 4_001);
    let mut accounts = airdrop_accounts(4_000, 0);
    assert_eq!(user_airdrop(&mut accounts, &clock(9_000, 1), UserAirdropParams {}), Ok(1_000_000_000));
    // Before slot 5000 a player who was granted once is not granted again.
    let accounts = airdrop_accounts(1, 0);
    assert_eq!(
        accounts.validate(&clock(4_999, 1), &UserAirdropParams {}),
        Err(VrfFlipError::AirdropRequestedTooSoon)
    );
    let accounts = airdrop_accounts(4_000, 1_000_000_001);
    assert_eq!(
        accounts.validate(&clock(9_000, 1), &UserAirdropParams {}),
        Err(VrfFlipError::UserTokenBalanceHealthy)
    );
    let accounts = airdrop_accounts(4_000, 1_000_000_000);
    assert_eq!(accounts.validate(&clock(9_000, 1), &UserAirdropParams {}), Ok(()));
    let mut accounts = airdrop_accounts(0, 0);
    accounts.airdrop_token_wallet.owner = key(HOUSE);
    assert_eq!(
        user_airdrop(&mut accounts, &clock(9_000, 1), UserAirdropParams {}),
        Err(ActionError::Account(AccountError::TokenOwner))
    );
    let mut accounts = airdrop_accounts(0, 0);
    accounts.user.house = key(99);
    assert_eq!(
        user_airdrop(&mut accounts, &clock(9_000, 1), UserAirdropParams {}),
        Err(ActionError::Account(AccountError::HasOne))
    );
}

// ---- the whole course -----------------------------------------------------

#[test]
fn a_player_is_admitted_bets_and_wins() {
    let mut opening = house_init_accounts();
    house_init(&mut opening, HouseInitParams {}).unwrap();

    let mut admission = user_init_accounts();
    admission.house = opening.house;
    admission.mint = opening.mint;
    user_init(
        &mut admission,
        UserInitParams { switchboard_state_bump: 3, vrf_permission_bump: 4 },
    )
    .unwrap();

    let mut betting = bet_accounts(0, 0, 0);
    betting.user = admission.user;
    betting.house = opening.house;
    betting.house_vault = opening.house_vault;
    betting.escrow = admission.escrow;
    betting.flip_payer = admission.reward_address;
    betting.vrf = admission.vrf;
    let placed = user_bet(&mut betting, &clock(100, 50_000), bet(1, 2, 4_000_000_000)).unwrap();
    assert_eq!(placed.escrow_transfer_amount, 4_000_000_000);
    assert_eq!(placed.event.round_id, 1);
    assert_eq!(betting.escrow.amount, 4_000_000_000);
    assert_eq!(betting.flip_payer.amount, 6_000_000_000);

    // The oracle serves the request: its counter moves on, and it answers 5.
    let mut settling = UserSettle {
        user_key: betting.user_key,
        user: betting.user,
        house_key: betting.house_key,
        house: betting.house,
        escrow: betting.escrow,
        reward_address: betting.flip_payer,
        house_vault: betting.house_vault,
        vrf: vrf(1, word_bytes(5)),
    };
    settling.reward_address.key = key(REWARD);
    let settled = user_settle(&mut settling, &clock(103, 50_002), UserSettleParams {}).unwrap();
    assert!(settled.event.user_won);
    assert_eq!(settled.event.result, 2);
    assert_eq!(settled.payout, 4_000_000_000);
    assert_eq!(settling.reward_address.amount, 14_000_000_000);
    assert_eq!(settling.escrow.amount, 0);
    assert_eq!(settling.house_vault.amount, 100_000_000_000_000_000 - 4_000_000_000);
    assert_eq!(settling.user.current_round.status, RoundStatus::Settled);
    assert_eq!(settling.escrow.owner, key(HOUSE));
}

// ---- the range of the machine's numbers -------------------------------------

#[test]
fn bet_within_limits() {
    let sound = bet_accounts(100_000, 0, 5_000);
    assert!(sound.within_limits(&bet(1, 1, 1_000)));
    // The randomness account's counter is not the round's: it sets no limit.
    let mut a = sound;
    a.vrf.counter = u128::MAX;
    assert!(a.within_limits(&bet(1, 1, 1_000)));
    let mut a = sound;
    a.user.current_round = awaiting(GameType::CoinFlip, 1, 10, u128::MAX);
    assert!(!a.within_limits(&bet(1, 1, 1_000)));
    // Where the bet does not get as far as the new round, its counter does
    // not matter.
    assert!(a.within_limits(&bet(0, 1, 1_000)));
    assert!(a.within_limits(&bet(9, 1, 1_000)));
    assert!(a.within_limits(&bet(1, 1, 5_001)));
    let mut a = sound;
    a.user.history.idx = 48;
    assert!(a.within_limits(&bet(1, 1, 1_000)));
    a.user.current_round = awaiting(GameType::CoinFlip, 1, 10, 1);
    assert!(!a.within_limits(&bet(1, 1, 1_000)));
    assert!(!a.within_limits(&bet(0, 1, 1_000)));
    a.user.history.idx = 47;
    assert!(a.within_limits(&bet(1, 1, 1_000)));
}

#[test]
fn settlement_within_limits() {
    let round = awaiting(GameType::CoinFlip, 1, 1000, 1);
    let sound = settle_accounts(round, 50_000, 1_000, 0, 2);
    assert!(sound.within_limits());
    assert!(sound.settles_within_limits(0));
    assert!(sound.settles_within_limits(u32::MAX));
    // No outcome can be computed without a largest outcome.
    let mut a = sound;
    a.user.current_round.game_config.max = 0;
    assert!(!a.settles_within_limits(2));
    assert!(!a.within_limits());
    // Where the answer is refused anyway, the numbers do not matter.
    a.vrf.counter = 9;
    assert!(a.within_limits());
    // The outcome must fit.
    let mut a = sound;
    a.user.current_round.game_config.max = 10;
    a.user.current_round.game_config.min = u32::MAX - 8;
    assert!(a.settles_within_limits(8));
    assert!(!a.settles_within_limits(9));
    // Wager and winnings together must fit, where the player wins.
    let mut a = sound;
    a.user.current_round.bet_amount = u64::MAX / 2 + 1;
    assert!(!a.settles_within_limits(2));
    assert!(a.settles_within_limits(3));
    a.user.current_round.bet_amount = u64::MAX / 2;
    assert!(a.settles_within_limits(2));
}

// ---- the number of the report, delegates, frozen accounts --------------------

#[test]
fn bet_report_carries_the_number_of_the_round() {
    // The randomness account has served five requests; the player has no
    // round yet.
    let mut accounts = bet_accounts(100_000, 0, 5_000);
    accounts.vrf.counter = 5;
    let placed = user_bet(&mut accounts, &clock(42, 7_000), bet(1, 1, 1_000)).unwrap();
    assert_eq!(accounts.user.current_round.round_id, 1);
    assert_eq!(placed.event.round_id, 1);
    // And so for every round after it.
    accounts.vrf.counter = 0;
    for n in 2u128..=5 {
        let at = 7_000 + 100 * n as i64;
        let placed = user_bet(&mut accounts, &clock(42, at), bet(1, 1, 10)).unwrap();
        assert_eq!(accounts.user.current_round.round_id, n);
        assert_eq!(placed.event.round_id, n);
    }
}

#[test]
fn transfer_on_the_word_of_a_delegate() {
    let mut from = token(1, ASSET, HOUSE_ADMIN, 500);
    from.delegate = Some(key(PLAYER));
    from.delegated_amount = 300;
    let mut to = token(2, ASSET, HOUSE, 20);
    // The delegate may move no more than was delegated.
    assert_eq!(transfer(&mut from, &mut to, &key(PLAYER), 301), Err(TokenError::InsufficientFunds));
    assert_eq!(transfer(&mut from, &mut to, &key(PLAYER), 100), Ok(()));
    assert_eq!((from.amount, to.amount), (400, 120));
    assert_eq!(from.delegate, Some(key(PLAYER)));
    assert_eq!(from.delegated_amount, 200);
    // The owner still moves what the account holds, and the delegate's
    // allowance stays.
    assert_eq!(transfer(&mut from, &mut to, &key(HOUSE_ADMIN), 150), Ok(()));
    assert_eq!((from.amount, from.delegated_amount), (250, 200));
    // Once the allowance is used up, the delegate is one no longer.
    assert_eq!(transfer(&mut from, &mut to, &key(PLAYER), 200), Ok(()));
    assert_eq!((from.amount, to.amount), (50, 470));
    assert_eq!(from.delegate, None);
    assert_eq!(from.delegated_amount, 0);
    assert_eq!(transfer(&mut from, &mut to, &key(PLAYER), 1), Err(TokenError::OwnerMismatch));
    // Anyone else is refused.
    assert_eq!(transfer(&mut from, &mut to, &key(HOUSE), 1), Err(TokenError::OwnerMismatch));
}

#[test]
fn transfer_of_a_frozen_account_is_refused() {
    let mut from = token(1, ASSET, PLAYER, 500);
    let mut to = token(2, ASSET, HOUSE, 20);
    from.is_frozen = true;
    assert_eq!(transfer(&mut from, &mut to, &key(PLAYER), 1), Err(TokenError::AccountFrozen));
    // Frozen comes before every other refusal.
    assert_eq!(transfer(&mut from, &mut to, &key(HOUSE), 900), Err(TokenError::AccountFrozen));
    from.is_frozen = false;
    to.is_frozen = true;
    assert_eq!(transfer(&mut from, &mut to, &key(PLAYER), 1), Err(TokenError::AccountFrozen));
    assert_eq!((from.amount, to.amount), (500, 20));
    let mut mint = asset(0);
    assert_eq!(mint_to(&mut mint, &mut to, &key(HOUSE), 1), Err(TokenError::AccountFrozen));
    assert_eq!(set_owner(&mut to, &key(HOUSE), key(PLAYER)), Err(TokenError::AccountFrozen));
    assert_eq!(set_close_authority(&mut to, &key(HOUSE), None), Err(TokenError::AccountFrozen));
    assert_eq!(to.owner, key(HOUSE));
}

#[test]
fn transfer_from_an_account_to_itself_moves_nothing() {
    let mut from = token(1, ASSET, PLAYER, 500);
    from.delegate = Some(key(HOUSE));
    from.delegated_amount = 100;
    let mut to = from;
    assert_eq!(transfer(&mut from, &mut to, &key(PLAYER), 200), Ok(()));
    assert_eq!(transfer(&mut from, &mut to, &key(HOUSE), 100), Ok(()));
    assert_eq!((from.amount, to.amount), (500, 500));
    assert_eq!(from.delegated_amount, 100);
    // The checks are made all the same.
    assert_eq!(transfer(&mut from, &mut to, &key(PLAYER), 501), Err(TokenError::InsufficientFunds));
    assert_eq!(transfer(&mut from, &mut to, &key(HOUSE), 101), Err(TokenError::InsufficientFunds));
    assert_eq!(transfer(&mut from, &mut to, &key(HOUSE_ADMIN), 1), Err(TokenError::OwnerMismatch));
}

#[test]
fn mint_to_a_native_account_is_refused() {
    let mut mint = asset(0);
    let mut to = token(2, ASSET, PLAYER, 7);
    to.is_native = true;
    assert_eq!(mint_to(&mut mint, &mut to, &key(HOUSE), 1), Err(TokenError::NativeNotSupported));
    assert_eq!((to.amount, mint.supply), (7, 0));
}

#[test]
fn set_owner_removes_the_delegate() {
    let mut account = token(ESCROW, ASSET, PLAYER, 5);
    account.delegate = Some(key(HOUSE_ADMIN));
    account.delegated_amount = 3;
    account.close_authority = Some(key(PLAYER));
    assert_eq!(set_owner(&mut account, &key(PLAYER), key(HOUSE)), Ok(()));
    assert_eq!(account.owner, key(HOUSE));
    assert_eq!(account.delegate, None);
    assert_eq!(account.delegated_amount, 0);
    assert_eq!(account.close_authority, Some(key(PLAYER)));
    // A native account loses its close authority with its owner.
    let mut native = token(ESCROW, ASSET, PLAYER, 5);
    native.is_native = true;
    native.close_authority = Some(key(PLAYER));
    assert_eq!(set_owner(&mut native, &key(PLAYER), key(HOUSE)), Ok(()));
    assert_eq!(native.close_authority, None);
}

#[test]
fn bet_is_funded_on_the_word_of_the_payers_delegate() {
    // Another pays for the player, and has allowed the player to move the
    // wager out of the wallet.
    let mut accounts = bet_accounts(100_000, 0, 5_000);
    accounts.payer = key(HOUSE_ADMIN);
    accounts.flip_payer.owner = key(HOUSE_ADMIN);
    accounts.vrf_payer.owner = key(HOUSE_ADMIN);
    accounts.flip_payer.delegate = Some(key(PLAYER));
    accounts.flip_payer.delegated_amount = 1_000;
    let placed = user_bet(&mut accounts, &clock(42, 7_000), bet(1, 1, 1_000)).unwrap();
    assert_eq!(placed.escrow_transfer_amount, 1_000);
    assert_eq!(accounts.escrow.amount, 1_000);
    assert_eq!(accounts.flip_payer.amount, 4_000);
    assert_eq!(accounts.flip_payer.delegate, None);
    assert_eq!(placed.request.payer_authority, key(HOUSE_ADMIN));
    // Without the allowance the ledger refuses, and nothing is done.
    let mut accounts = bet_accounts(100_000, 0, 5_000);
    accounts.payer = key(HOUSE_ADMIN);
    accounts.flip_payer.owner = key(HOUSE_ADMIN);
    accounts.vrf_payer.owner = key(HOUSE_ADMIN);
    accounts.flip_payer.delegate = Some(key(PLAYER));
    accounts.flip_payer.delegated_amount = 999;
    let before = accounts;
    assert_eq!(
        user_bet(&mut accounts, &clock(42, 7_000), bet(1, 1, 1_000)).err(),
        Some(ActionError::Token(TokenError::InsufficientFunds))
    );
    assert!(same_bet(&accounts, &before));
}
