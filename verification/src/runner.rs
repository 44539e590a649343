//! The settling function's part: from its parameters and a random draw to
//! the instruction that settles the bet.

use vstd::prelude::*;
use vstd::bytes::{spec_u32_to_le_bytes, u32_to_le_bytes};
use crate::oracle::{result_words, word_le};
use crate::params::ContainerParams;
use crate::pubkey::{seed_views, Pubkey};

verus! {

/// One account of an instruction: its address, whether it signs, and whether
/// the instruction may write to it.
#[derive(Clone, Copy, Debug)]
pub struct AccountMeta {
    pub pubkey: Pubkey,
    pub is_signer: bool,
    pub is_writable: bool,
}

/// An instruction to a program.
#[derive(Debug)]
pub struct Instruction {
    pub program_id: Pubkey,
    pub accounts: Vec<AccountMeta>,
    pub data: Vec<u8>,
}

/// What the settling function knows of itself.
#[derive(Clone, Copy, Debug)]
pub struct Runner {
    /// The function's account.
    pub function: Pubkey,
    /// The request that the function was started for.
    pub function_request_key: Pubkey,
    /// The key that the enclave signs with.
    pub signer: Pubkey,
}

impl AccountMeta {
    /// An account that the instruction may write to.
    pub fn new(pubkey: Pubkey, is_signer: bool) -> (meta: AccountMeta)
        ensures
            meta == (AccountMeta { pubkey, is_signer, is_writable: true }),
    {
        AccountMeta { pubkey, is_signer, is_writable: true }
    }

    /// An account that the instruction only reads.
    pub fn new_readonly(pubkey: Pubkey, is_signer: bool) -> (meta: AccountMeta)
        ensures
            meta == (AccountMeta { pubkey, is_signer, is_writable: false }),
    {
        AccountMeta { pubkey, is_signer, is_writable: false }
    }
}

/// The seed of the house's address: the ASCII text `HOUSESEED`.
pub open spec fn house_seed() -> Seq<u8> {
    seq![0x48u8, 0x4Fu8, 0x55u8, 0x53u8, 0x45u8, 0x53u8, 0x45u8, 0x45u8, 0x44u8]
}

/// The bytes of the token program's address.
pub open spec fn token_program_bytes() -> Seq<u8> {
    seq![
        6u8, 221u8, 246u8, 225u8, 215u8, 101u8, 161u8, 147u8, 217u8, 203u8, 225u8, 70u8, 206u8,
        235u8, 121u8, 172u8, 28u8, 180u8, 133u8, 237u8, 95u8, 91u8, 55u8, 145u8, 58u8, 140u8,
        245u8, 133u8, 126u8, 255u8, 0u8, 169u8,
    ]
}

/// The bytes of the address of the program that keeps associated token
/// accounts.
pub open spec fn associated_token_program_bytes() -> Seq<u8> {
    seq![
        140u8, 151u8, 37u8, 143u8, 78u8, 36u8, 137u8, 241u8, 187u8, 61u8, 16u8, 41u8, 20u8,
        142u8, 13u8, 131u8, 11u8, 90u8, 19u8, 153u8, 218u8, 255u8, 16u8, 132u8, 4u8, 142u8,
        123u8, 216u8, 219u8, 233u8, 248u8, 89u8,
    ]
}

/// The token program's address.
pub fn token_program_id() -> (id: Pubkey)
    ensures
        id.bytes@ == token_program_bytes(),
{
    let bytes: [u8; 32] = [
        6, 221, 246, 225, 215, 101, 161, 147, 217, 203, 225, 70, 206, 235, 121, 172, 28, 180,
        133, 237, 95, 91, 55, 145, 58, 140, 245, 133, 126, 255, 0, 169,
    ];
    assert(bytes@ =~= token_program_bytes());
    Pubkey { bytes }
}

/// The address of the program that keeps associated token accounts.
pub fn associated_token_program_id() -> (id: Pubkey)
    ensures
        id.bytes@ == associated_token_program_bytes(),
{
    let bytes: [u8; 32] = [
        140, 151, 37, 143, 78, 36, 137, 241, 187, 61, 16, 41, 20, 142, 13, 131, 11, 90, 19, 153,
        218, 255, 16, 132, 4, 142, 123, 216, 219, 233, 248, 89,
    ];
    assert(bytes@ =~= associated_token_program_bytes());
    Pubkey { bytes }
}

/// The address of the house of a program: derived from `house_seed`.
pub open spec fn house_address_spec(program_id: Pubkey) -> Option<Pubkey> {
    match Pubkey::derived(seq![house_seed()], program_id.bytes@) {
        Some((key, _)) => Some(key),
        None => None,
    }
}

/// Derives the address of the house of a program.
pub fn house_address(program_id: &Pubkey) -> (house: Option<Pubkey>)
    ensures
        house == house_address_spec(*program_id),
{
    let seed: Vec<u8> = vec![0x48u8, 0x4Fu8, 0x55u8, 0x53u8, 0x45u8, 0x53u8, 0x45u8, 0x45u8, 0x44u8];
    assert(seed@ =~= house_seed());
    let mut seeds: Vec<Vec<u8>> = Vec::new();
    seeds.push(seed);
    assert(seed_views(seeds@) =~= seq![house_seed()]);
    match Pubkey::find_program_address(&seeds, program_id) {
        Some((key, _)) => Some(key),
        None => None,
    }
}

/// The address of the token account that is associated with a wallet for an
/// asset: derived for the program that keeps such accounts from the wallet,
/// the token program and the asset.
pub open spec fn associated_token_address_spec(wallet: Pubkey, mint: Pubkey) -> Option<Pubkey> {
    match Pubkey::derived(
        seq![wallet.bytes@, token_program_bytes(), mint.bytes@],
        associated_token_program_bytes(),
    ) {
        Some((key, _)) => Some(key),
        None => None,
    }
}

/// Derives the address of the token account that is associated with a wallet
/// for an asset.
pub fn associated_token_address(wallet: &Pubkey, mint: &Pubkey) -> (account: Option<Pubkey>)
    ensures
        account == associated_token_address_spec(*wallet, *mint),
{
    let program = associated_token_program_id();
    let token_program = token_program_id();
    let mut seeds: Vec<Vec<u8>> = Vec::new();
    seeds.push(wallet.to_vec());
    seeds.push(token_program.to_vec());
    seeds.push(mint.to_vec());
    assert(seed_views(seeds@) =~= seq![wallet.bytes@, token_program_bytes(), mint.bytes@]);
    match Pubkey::find_program_address(&seeds, &program) {
        Some((key, _)) => Some(key),
        None => None,
    }
}

/// Whether `result` is the toss that the four random bytes stand for: the
/// word that they make up, in one of the two byte orders that a machine can
/// have, modulo two.
pub open spec fn is_toss(random: [u8; 4], result: u32) -> bool {
    ||| result == word_le(random@[0], random@[1], random@[2], random@[3]) % 2
    ||| result == word_le(random@[3], random@[2], random@[1], random@[0]) % 2
}

/// Tosses the coin: reads the four random bytes as a word and takes it modulo
/// two.
pub fn toss(random: [u8; 4]) -> (result: u32)
    ensures
        is_toss(random, result),
        result < 2,
{
    let mut buffer: [u8; 32] = [0u8; 32];
    buffer[0] = random[0];
    buffer[1] = random[1];
    buffer[2] = random[2];
    buffer[3] = random[3];
    let raw_result: [u32; 8] = result_words(buffer);
    let result: u32 = raw_result[0] % 2;
    result
}

/// The accounts of the instruction that settles a bet, in their order: the
/// player's record, the house, the escrow, the reward account and the vault,
/// then the function, its request and the enclave's signer, then the token
/// program. The record, the escrow, the reward account and the vault may be
/// written to; only the enclave signs.
pub open spec fn settle_accounts(
    params: ContainerParams,
    runner: Runner,
    house: Pubkey,
    house_vault: Pubkey,
    token_program: Pubkey,
) -> Seq<AccountMeta> {
    seq![
        AccountMeta { pubkey: params.user_key, is_signer: false, is_writable: true },
        AccountMeta { pubkey: house, is_signer: false, is_writable: false },
        AccountMeta { pubkey: params.escrow_key, is_signer: false, is_writable: true },
        AccountMeta { pubkey: params.reward_key, is_signer: false, is_writable: true },
        AccountMeta { pubkey: house_vault, is_signer: false, is_writable: true },
        AccountMeta { pubkey: runner.function, is_signer: false, is_writable: false },
        AccountMeta { pubkey: runner.function_request_key, is_signer: false, is_writable: false },
        AccountMeta { pubkey: runner.signer, is_signer: true, is_writable: false },
        AccountMeta { pubkey: token_program, is_signer: false, is_writable: false },
    ]
}

/// Whether `instruction` settles a bet with `result`: it goes to the program
/// of `params`, names the accounts of `settle_accounts`, and carries the
/// discriminator followed by the result, lowest byte first.
pub open spec fn settles_with(
    instruction: Instruction,
    params: ContainerParams,
    runner: Runner,
    house: Pubkey,
    house_vault: Pubkey,
    token_program: Pubkey,
    discriminator: [u8; 8],
    result: u32,
) -> bool {
    &&& instruction.program_id == params.program_id
    &&& instruction.accounts@ == settle_accounts(params, runner, house, house_vault, token_program)
    &&& instruction.data@ == discriminator@ + spec_u32_to_le_bytes(result)
}

/// Makes the instruction that settles a bet with `result`.
pub fn settle_instruction(
    params: &ContainerParams,
    runner: &Runner,
    house: Pubkey,
    house_vault: Pubkey,
    token_program: Pubkey,
    discriminator: [u8; 8],
    result: u32,
) -> (instruction: Instruction)
    ensures
        settles_with(
            instruction,
            *params,
            *runner,
            house,
            house_vault,
            token_program,
            discriminator,
            result,
        ),
{
    let mut ixn_data: Vec<u8> = Vec::new();
    let mut i: usize = 0;
    while i < 8
        invariant
            i <= 8,
            ixn_data@ == discriminator@.subrange(0, i as int),
        decreases 8 - i,
    {
        ixn_data.push(discriminator[i]);
        assert(ixn_data@ =~= discriminator@.subrange(0, i + 1));
        i += 1;
    }
    assert(ixn_data@ =~= discriminator@);
    let mut result_bytes = u32_to_le_bytes(result);
    ixn_data.append(&mut result_bytes);
    let mut accounts: Vec<AccountMeta> = Vec::new();
    accounts.push(AccountMeta::new(params.user_key, false));
    accounts.push(AccountMeta::new_readonly(house, false));
    accounts.push(AccountMeta::new(params.escrow_key, false));
    accounts.push(AccountMeta::new(params.reward_key, false));
    accounts.push(AccountMeta::new(house_vault, false));
    accounts.push(AccountMeta::new_readonly(runner.function, false));
    accounts.push(AccountMeta::new_readonly(runner.function_request_key, false));
    accounts.push(AccountMeta::new_readonly(runner.signer, true));
    accounts.push(AccountMeta::new_readonly(token_program, false));
    assert(accounts@ =~= settle_accounts(*params, *runner, house, house_vault, token_program));
    Instruction { program_id: params.program_id, accounts, data: ixn_data }
}

} // verus!
