//! The parameters that the settling function is started with: a list of
//! `NAME=address` pairs, separated by commas.

use vstd::prelude::*;
use vstd::slice::slice_subrange;
use vstd::utf8::{decode_utf8, valid_utf8};
use crate::pubkey::Pubkey;

verus! {

/// The addresses that the settling function works with.
#[derive(Clone, Copy, Debug)]
pub struct ContainerParams {
    pub program_id: Pubkey,
    pub mint_key: Pubkey,
    pub user_key: Pubkey,
    pub escrow_key: Pubkey,
    pub reward_key: Pubkey,
}

/// Which address a parameter list leaves undefined.
#[derive(Clone, Copy, Debug, PartialEq, Eq, Structural)]
pub enum ParamsError {
    ProgramIdUndefined,
    MintUndefined,
    UserUndefined,
    EscrowUndefined,
    RewardUndefined,
}

impl ParamsError {
    /// The text that reports the error.
    pub open spec fn message_text(self) -> Seq<char> {
        match self {
            ParamsError::ProgramIdUndefined => "PID cannot be undefined"@,
            ParamsError::MintUndefined => "MINT cannot be undefined"@,
            ParamsError::UserUndefined => "USER cannot be undefined"@,
            ParamsError::EscrowUndefined => "ESCROW cannot be undefined"@,
            ParamsError::RewardUndefined => "REWARD cannot be undefined"@,
        }
    }

    /// The text that reports the error.
    pub fn message(&self) -> (text: String)
        ensures
            text@ == self.message_text(),
    {
        let literal: &str = match self {
            ParamsError::ProgramIdUndefined => "PID cannot be undefined",
            ParamsError::MintUndefined => "MINT cannot be undefined",
            ParamsError::UserUndefined => "USER cannot be undefined",
            ParamsError::EscrowUndefined => "ESCROW cannot be undefined",
            ParamsError::RewardUndefined => "REWARD cannot be undefined",
        };
        literal.to_owned()
    }
}

/// The byte that separates two pairs: a comma.
pub const PAIR_SEPARATOR: u8 = 0x2C;

/// The byte that separates a name from its address: an equals sign.
pub const NAME_SEPARATOR: u8 = 0x3D;

/// The name `PID`.
pub open spec fn name_pid() -> Seq<u8> {
    seq![0x50u8, 0x49u8, 0x44u8]
}

/// The name `MINT`.
pub open spec fn name_mint() -> Seq<u8> {
    seq![0x4Du8, 0x49u8, 0x4Eu8, 0x54u8]
}

/// The name `USER`.
pub open spec fn name_user() -> Seq<u8> {
    seq![0x55u8, 0x53u8, 0x45u8, 0x52u8]
}

/// The name `ESCROW`.
pub open spec fn name_escrow() -> Seq<u8> {
    seq![0x45u8, 0x53u8, 0x43u8, 0x52u8, 0x4Fu8, 0x57u8]
}

/// The name `REWARD`.
pub open spec fn name_reward() -> Seq<u8> {
    seq![0x52u8, 0x45u8, 0x57u8, 0x41u8, 0x52u8, 0x44u8]
}

/// Where `byte` first occurs in `s`, or the length of `s` where it does not
/// occur.
pub open spec fn find(s: Seq<u8>, byte: u8) -> int
    decreases s.len(),
{
    if s.len() == 0 || s[0] == byte {
        0
    } else {
        1 + find(s.subrange(1, s.len() as int), byte)
    }
}

/// The address that the bytes of a value stand for: the address that their
/// text is in base 58. This is said of values cut out of a list that is text,
/// which are text themselves.
pub open spec fn key_of(value: Seq<u8>) -> Option<Pubkey> {
    Pubkey::of_text(decode_utf8(value))
}

/// The list without any address: every address is zero.
pub open spec fn blank() -> ContainerParams {
    ContainerParams {
        program_id: Pubkey::zero(),
        mint_key: Pubkey::zero(),
        user_key: Pubkey::zero(),
        escrow_key: Pubkey::zero(),
        reward_key: Pubkey::zero(),
    }
}

/// What one pair does to the addresses read so far. A piece without an equals
/// sign, or with a name that is none of the five, changes nothing. A piece
/// with one of the five names sets that address to what follows the first
/// equals sign; where that is no address, the list is malformed.
pub open spec fn assign(acc: ContainerParams, piece: Seq<u8>) -> Option<ContainerParams> {
    let at = find(piece, NAME_SEPARATOR);
    let name = piece.subrange(0, at);
    let value = piece.subrange(at + 1, piece.len() as int);
    if !(0 <= at < piece.len()) {
        Some(acc)
    } else if name == name_pid() {
        match key_of(value) {
            Some(key) => Some(ContainerParams { program_id: key, ..acc }),
            None => None,
        }
    } else if name == name_mint() {
        match key_of(value) {
            Some(key) => Some(ContainerParams { mint_key: key, ..acc }),
            None => None,
        }
    } else if name == name_user() {
        match key_of(value) {
            Some(key) => Some(ContainerParams { user_key: key, ..acc }),
            None => None,
        }
    } else if name == name_escrow() {
        match key_of(value) {
            Some(key) => Some(ContainerParams { escrow_key: key, ..acc }),
            None => None,
        }
    } else if name == name_reward() {
        match key_of(value) {
            Some(key) => Some(ContainerParams { reward_key: key, ..acc }),
            None => None,
        }
    } else {
        Some(acc)
    }
}

/// The addresses after every pair of `s` has been applied to `acc`, from left
/// to right, so that of two pairs with one name the later one counts. Nothing
/// where the list is malformed.
pub open spec fn scan(s: Seq<u8>, acc: ContainerParams) -> Option<ContainerParams>
    decreases s.len(),
{
    let end = find(s, PAIR_SEPARATOR);
    if 0 <= end < s.len() {
        match assign(acc, s.subrange(0, end)) {
            None => None,
            Some(next) => scan(s.subrange(end + 1, s.len() as int), next),
        }
    } else {
        assign(acc, s)
    }
}

/// The parameters that the addresses read make up, or the first of the five
/// that is still zero.
pub open spec fn complete(fields: ContainerParams) -> Result<ContainerParams, ParamsError> {
    if fields.program_id == Pubkey::zero() {
        Err(ParamsError::ProgramIdUndefined)
    } else if fields.mint_key == Pubkey::zero() {
        Err(ParamsError::MintUndefined)
    } else if fields.user_key == Pubkey::zero() {
        Err(ParamsError::UserUndefined)
    } else if fields.escrow_key == Pubkey::zero() {
        Err(ParamsError::EscrowUndefined)
    } else if fields.reward_key == Pubkey::zero() {
        Err(ParamsError::RewardUndefined)
    } else {
        Ok(fields)
    }
}

/// What a parameter list stands for. Nothing where the list is malformed:
/// where it is no text, or where the text that follows one of the five names
/// is no address in base 58. Else the parameters that its pairs make up, or the error that
/// names the first address left undefined.
pub open spec fn decode_spec(bytes: Seq<u8>) -> Option<Result<ContainerParams, ParamsError>> {
    if !valid_utf8(bytes) {
        None
    } else {
        match scan(bytes, blank()) {
            None => None,
            Some(fields) => Some(complete(fields)),
        }
    }
}

/// In text, what stands before a byte of ASCII is text, and so is what stands
/// after it.
proof fn lemma_text_around(bytes: Seq<u8>, at: int)
    requires
        valid_utf8(bytes),
        0 <= at < bytes.len(),
        bytes[at] < 0x80,
    ensures
        valid_utf8(bytes.subrange(0, at)),
        valid_utf8(bytes.subrange(at + 1, bytes.len() as int)),
{
    vstd::utf8::is_char_boundary_iff_not_is_continuation_byte(bytes, at);
    vstd::utf8::valid_utf8_split(bytes, at);
    let tail = bytes.subrange(at, bytes.len() as int);
    assert(tail[0] == bytes[at]);
    assert(vstd::utf8::pop_first_scalar(tail) =~= bytes.subrange(at + 1, bytes.len() as int));
}

/// In a list that is text, every part that is cut out at separators, or at
/// the ends of the list, is text.
proof fn lemma_parts_are_text(bytes: Seq<u8>, from: int, to: int)
    requires
        valid_utf8(bytes),
        0 <= from <= to <= bytes.len(),
        from == 0 || bytes[from - 1] == PAIR_SEPARATOR || bytes[from - 1] == NAME_SEPARATOR,
        to == bytes.len() || bytes[to] == PAIR_SEPARATOR || bytes[to] == NAME_SEPARATOR,
    ensures
        valid_utf8(bytes.subrange(from, to)),
{
    let rest = bytes.subrange(from, bytes.len() as int);
    if from == 0 {
        assert(rest =~= bytes);
    } else {
        lemma_text_around(bytes, from - 1);
    }
    if to == bytes.len() {
        assert(bytes.subrange(from, to) =~= rest);
    } else {
        assert(rest[to - from] == bytes[to]);
        lemma_text_around(rest, to - from);
        assert(rest.subrange(0, to - from) =~= bytes.subrange(from, to));
    }
}

/// Calls `std::str::from_utf8`: the text that the bytes encode, where they
/// encode one.
#[verifier::external_body]
fn text_of(bytes: &[u8]) -> (text: Option<&str>)
    ensures
        text is Some <==> valid_utf8(bytes@),
        text matches Some(t) ==> t@ == decode_utf8(bytes@),
{
    std::str::from_utf8(bytes).ok()
}

/// `find` is the position before which the byte does not occur and at which,
/// if it is inside the sequence, it does.
proof fn lemma_find(s: Seq<u8>, byte: u8, k: int)
    requires
        0 <= k <= s.len(),
        forall|j: int| 0 <= j < k ==> s[j] != byte,
        k < s.len() ==> s[k] == byte,
    ensures
        find(s, byte) == k,
    decreases k,
{
    if k > 0 {
        let rest = s.subrange(1, s.len() as int);
        assert forall|j: int| 0 <= j < k - 1 implies rest[j] != byte by {
            assert(rest[j] == s[j + 1]);
        }
        lemma_find(rest, byte, k - 1);
    }
}

/// Where `byte` first occurs in `bytes` between `from` and `to`, or `to`.
fn index_of(bytes: &[u8], from: usize, to: usize, byte: u8) -> (at: usize)
    requires
        from <= to <= bytes@.len(),
    ensures
        from <= at <= to,
        at < to ==> bytes@[at as int] == byte,
        at - from == find(bytes@.subrange(from as int, to as int), byte),
{
    let mut at: usize = from;
    while at < to && bytes[at] != byte
        invariant
            from <= at <= to <= bytes@.len(),
            forall|j: int| from <= j < at ==> bytes@[j] != byte,
        decreases to - at,
    {
        at += 1;
    }
    proof {
        lemma_find(bytes@.subrange(from as int, to as int), byte, at - from);
    }
    at
}

/// Whether the bytes between `from` and `to` are `word`.
fn is_word(bytes: &[u8], from: usize, to: usize, word: &[u8]) -> (same: bool)
    requires
        from <= to <= bytes@.len(),
    ensures
        same == (bytes@.subrange(from as int, to as int) == word@),
{
    if to - from != word.len() {
        return false;
    }
    let mut i: usize = 0;
    while i < word.len()
        invariant
            from <= to <= bytes@.len(),
            to - from == word@.len(),
            i <= word@.len(),
            forall|j: int| 0 <= j < i ==> bytes@[from + j] == word@[j],
        decreases word@.len() - i,
    {
        if bytes[from + i] != word[i] {
            assert(bytes@.subrange(from as int, to as int)[i as int] != word@[i as int]);
            return false;
        }
        i += 1;
    }
    assert(bytes@.subrange(from as int, to as int) =~= word@);
    true
}

/// Reads the address that the part of a list between `from` and `to` stands
/// for. The list is text and the part is cut out at separators, so the part
/// is text.
fn read_key(bytes: &[u8], from: usize, to: usize) -> (key: Option<Pubkey>)
    requires
        valid_utf8(bytes@),
        from <= to <= bytes@.len(),
        from == 0 || bytes@[from - 1] == PAIR_SEPARATOR || bytes@[from - 1] == NAME_SEPARATOR,
        to == bytes@.len() || bytes@[to as int] == PAIR_SEPARATOR || bytes@[to as int]
            == NAME_SEPARATOR,
    ensures
        key == key_of(bytes@.subrange(from as int, to as int)),
{
    proof {
        lemma_parts_are_text(bytes@, from as int, to as int);
    }
    match text_of(slice_subrange(bytes, from, to)) {
        Some(text) => Pubkey::parse(text),
        None => vstd::pervasive::unreached(),
    }
}

/// Applies the pair between `from` and `to` to the addresses read so far.
fn assign_pair(acc: ContainerParams, bytes: &[u8], from: usize, to: usize) -> (next: Option<
    ContainerParams,
>)
    requires
        valid_utf8(bytes@),
        from <= to <= bytes@.len(),
        to == bytes@.len() || bytes@[to as int] == PAIR_SEPARATOR,
    ensures
        next == assign(acc, bytes@.subrange(from as int, to as int)),
{
    let ghost piece = bytes@.subrange(from as int, to as int);
    let at = index_of(bytes, from, to, NAME_SEPARATOR);
    if at >= to {
        return Some(acc);
    }
    assert(piece.subrange(0, at - from) =~= bytes@.subrange(from as int, at as int));
    assert(piece.subrange(at - from + 1, piece.len() as int) =~= bytes@.subrange(
        at + 1,
        to as int,
    ));
    let pid: [u8; 3] = [0x50, 0x49, 0x44];
    let mint: [u8; 4] = [0x4D, 0x49, 0x4E, 0x54];
    let user: [u8; 4] = [0x55, 0x53, 0x45, 0x52];
    let escrow: [u8; 6] = [0x45, 0x53, 0x43, 0x52, 0x4F, 0x57];
    let reward: [u8; 6] = [0x52, 0x45, 0x57, 0x41, 0x52, 0x44];
    assert(pid@ =~= name_pid());
    assert(mint@ =~= name_mint());
    assert(user@ =~= name_user());
    assert(escrow@ =~= name_escrow());
    assert(reward@ =~= name_reward());
    if is_word(bytes, from, at, pid.as_slice()) {
        match read_key(bytes, at + 1, to) {
            Some(key) => Some(ContainerParams { program_id: key, ..acc }),
            None => None,
        }
    } else if is_word(bytes, from, at, mint.as_slice()) {
        match read_key(bytes, at + 1, to) {
            Some(key) => Some(ContainerParams { mint_key: key, ..acc }),
            None => None,
        }
    } else if is_word(bytes, from, at, user.as_slice()) {
        match read_key(bytes, at + 1, to) {
            Some(key) => Some(ContainerParams { user_key: key, ..acc }),
            None => None,
        }
    } else if is_word(bytes, from, at, escrow.as_slice()) {
        match read_key(bytes, at + 1, to) {
            Some(key) => Some(ContainerParams { escrow_key: key, ..acc }),
            None => None,
        }
    } else if is_word(bytes, from, at, reward.as_slice()) {
        match read_key(bytes, at + 1, to) {
            Some(key) => Some(ContainerParams { reward_key: key, ..acc }),
            None => None,
        }
    } else {
        Some(acc)
    }
}

/// Applies every pair of `bytes`, from left to right, to a list without any
/// address.
fn scan_pairs(bytes: &[u8]) -> (fields: Option<ContainerParams>)
    requires
        valid_utf8(bytes@),
    ensures
        fields == scan(bytes@, blank()),
{
    let start = ContainerParams {
        program_id: Pubkey::default(),
        mint_key: Pubkey::default(),
        user_key: Pubkey::default(),
        escrow_key: Pubkey::default(),
        reward_key: Pubkey::default(),
    };
    assert(bytes@.subrange(0, bytes@.len() as int) =~= bytes@);
    let mut acc = start;
    let mut pos: usize = 0;
    let n: usize = bytes.len();
    loop
        invariant
            pos <= n == bytes@.len(),
            valid_utf8(bytes@),
            scan(bytes@, blank()) == scan(bytes@.subrange(pos as int, n as int), acc),
        decreases n - pos,
    {
        let ghost rest = bytes@.subrange(pos as int, n as int);
        let end = index_of(bytes, pos, n, PAIR_SEPARATOR);
        assert(rest.subrange(0, end - pos) =~= bytes@.subrange(pos as int, end as int));
        let next = assign_pair(acc, bytes, pos, end);
        match next {
            None => {
                return None;
            },
            Some(fields) => {
                acc = fields;
            },
        }
        if end >= n {
            assert(rest.subrange(0, end - pos) =~= rest);
            return Some(acc);
        }
        assert(rest.subrange(end - pos + 1, rest.len() as int) =~= bytes@.subrange(
            end + 1,
            n as int,
        ));
        pos = end + 1;
    }
}

/// Whether the address is the zero address.
fn is_default(key: &Pubkey) -> (zero: bool)
    ensures
        zero == (*key == Pubkey::zero()),
{
    *key == Pubkey::default()
}

impl ContainerParams {
    /// Reads the parameters from a well-formed list. Each of the five
    /// addresses must be given and must not be the zero address; the error
    /// names the first that is missing, in the order program, mint, user,
    /// escrow, reward.
    pub fn decode(container_params: &Vec<u8>) -> (decoded: Result<ContainerParams, ParamsError>)
        requires
            decode_spec(container_params@) is Some,
        ensures
            Some(decoded) == decode_spec(container_params@),
    {
        let fields = match scan_pairs(container_params.as_slice()) {
            Some(fields) => fields,
            None => vstd::pervasive::unreached(),
        };
        if is_default(&fields.program_id) {
            return Err(ParamsError::ProgramIdUndefined);
        }
        if is_default(&fields.mint_key) {
            return Err(ParamsError::MintUndefined);
        }
        if is_default(&fields.user_key) {
            return Err(ParamsError::UserUndefined);
        }
        if is_default(&fields.escrow_key) {
            return Err(ParamsError::EscrowUndefined);
        }
        if is_default(&fields.reward_key) {
            return Err(ParamsError::RewardUndefined);
        }
        Ok(fields)
    }

    /// Reads the parameters from a list, which need not be well formed:
    /// nothing where it is not, else what `decode` gives.
    pub fn try_decode(container_params: &Vec<u8>) -> (decoded: Option<
        Result<ContainerParams, ParamsError>,
    >)
        ensures
            decoded == decode_spec(container_params@),
    {
        if text_of(container_params.as_slice()).is_none() {
            return None;
        }
        if scan_pairs(container_params.as_slice()).is_none() {
            return None;
        }
        Some(ContainerParams::decode(container_params))
    }
}

} // verus!
