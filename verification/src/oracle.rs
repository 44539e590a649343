//! What the engine sees of the oracle: the randomness account bound to a
//! player, and the random words in a result.

use vstd::prelude::*;
use crate::pubkey::Pubkey;

verus! {

/// The randomness account of one player, as far as the engine reads it.
#[derive(Clone, Copy, Debug)]
pub struct VrfAccount {
    /// The account's address.
    pub key: Pubkey,
    /// Who may request randomness from the account and consume its result.
    pub authority: Pubkey,
    /// The oracle queue that serves the account.
    pub oracle_queue: Pubkey,
    /// The token account that pays for requests.
    pub escrow: Pubkey,
    /// How many requests the account has served.
    pub counter: u128,
    /// The result of the latest request; all zero while there is none.
    pub result: [u8; 32],
}

/// An oracle queue, as far as the engine reads it.
#[derive(Clone, Copy, Debug)]
pub struct OracleQueue {
    /// The queue's address.
    pub key: Pubkey,
    /// Who administers the queue.
    pub authority: Pubkey,
    /// The buffer that lists the queue's oracles.
    pub data_buffer: Pubkey,
    /// Whether the queue serves randomness to anyone who asks.
    pub unpermissioned_vrf_enabled: bool,
}

/// Whether a result buffer holds a result: some byte of it is not zero.
pub open spec fn holds_result(buffer: [u8; 32]) -> bool {
    exists|i: int| 0 <= i < 32 && buffer@[i] != 0u8
}

/// The 32-bit word whose bytes are `b0..b3`, lowest byte first.
pub open spec fn word_le(b0: u8, b1: u8, b2: u8, b3: u8) -> u32 {
    (b0 as int + (b1 as int) * 0x100 + (b2 as int) * 0x1_0000 + (b3 as int) * 0x100_0000) as u32
}

/// The eight words of a result buffer, each read lowest byte first.
pub open spec fn words_le(buffer: Seq<u8>) -> Seq<u32> {
    Seq::new(
        8,
        |i: int| word_le(buffer[4 * i], buffer[4 * i + 1], buffer[4 * i + 2], buffer[4 * i + 3]),
    )
}

/// The eight words of a result buffer, each read highest byte first.
pub open spec fn words_be(buffer: Seq<u8>) -> Seq<u32> {
    Seq::new(
        8,
        |i: int| word_le(buffer[4 * i + 3], buffer[4 * i + 2], buffer[4 * i + 1], buffer[4 * i]),
    )
}

/// Whether `words` is a reading of `buffer` as eight 32-bit words in one of
/// the two byte orders that a machine can have.
pub open spec fn reads_as(buffer: Seq<u8>, words: Seq<u32>) -> bool {
    words == words_le(buffer) || words == words_be(buffer)
}

/// Calls `switchboard_v2::VrfAccountData::get_result` on an account whose
/// latest result is `buffer`: the buffer itself where some byte of it is not
/// zero, nothing where all are zero.
#[verifier::external_body]
pub(crate) fn latest_result(buffer: [u8; 32]) -> (result: Option<[u8; 32]>)
    ensures
        result == if holds_result(buffer) {
            Some(buffer)
        } else {
            None::<[u8; 32]>
        },
{
    let mut account = switchboard_v2::VrfAccountData::default();
    account.current_round.result = buffer;
    account.get_result().ok()
}

/// Calls `bytemuck::cast` to read a result buffer as eight 32-bit words. The
/// words come in the byte order of the machine, so the contract allows both.
#[verifier::external_body]
pub(crate) fn result_words(buffer: [u8; 32]) -> (words: [u32; 8])
    ensures
        reads_as(buffer@, words@),
{
    bytemuck::cast(buffer)
}

impl VrfAccount {
    /// The latest result of the account, if it has one.
    pub fn get_result(&self) -> (result: Option<[u8; 32]>)
        ensures
            result == if holds_result(self.result) {
                Some(self.result)
            } else {
                None::<[u8; 32]>
            },
    {
        latest_result(self.result)
    }
}

} // verus!
