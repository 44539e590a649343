//! Account addresses.

use vstd::prelude::*;
use vstd::array::spec_array_fill_for_copy_type;

verus! {

/// The address of an account: 32 bytes.
#[derive(Clone, Copy, Debug)]
pub struct Pubkey {
    pub bytes: [u8; 32],
}

/// The address that a text in base 58 stands for, if it stands for one: what
/// `solana_program::pubkey::Pubkey::from_str` makes of the text.
pub uninterp spec fn pubkey_from_str(text: Seq<char>) -> Option<[u8; 32]>;

/// Calls `solana_program::pubkey::Pubkey::from_str`: the address that the
/// text stands for, or nothing where the call fails. The result depends on
/// the text alone.
#[verifier::external_body]
pub(crate) fn parse_pubkey(text: &str) -> (key: Option<Pubkey>)
    ensures
        key == match pubkey_from_str(text@) {
            Some(bytes) => Some(Pubkey { bytes }),
            None => None::<Pubkey>,
        },
{
    match <solana_program::pubkey::Pubkey as std::str::FromStr>::from_str(text) {
        Ok(key) => Some(Pubkey { bytes: key.to_bytes() }),
        Err(_) => None,
    }
}

/// The address that a program derives from seeds, with the bump that makes it
/// one, if there is such a bump: what
/// `solana_program::pubkey::Pubkey::try_find_program_address` makes of the
/// seeds and the program's address.
pub uninterp spec fn program_address(seeds: Seq<Seq<u8>>, program_id: Seq<u8>) -> Option<
    ([u8; 32], u8),
>;

/// The seeds as sequences of bytes.
pub open spec fn seed_views(seeds: Seq<Vec<u8>>) -> Seq<Seq<u8>> {
    Seq::new(seeds.len(), |i: int| seeds[i]@)
}

/// Calls `solana_program::pubkey::Pubkey::try_find_program_address`: the
/// address derived from the seeds for the program and its bump, or nothing
/// where the call finds none. The result depends on the seeds and the
/// program's address alone.
#[verifier::external_body]
pub(crate) fn try_find_program_address(seeds: &Vec<Vec<u8>>, program_id: &Pubkey) -> (found:
    Option<(Pubkey, u8)>)
    ensures
        found == match program_address(seed_views(seeds@), program_id.bytes@) {
            Some((bytes, bump)) => Some((Pubkey { bytes }, bump)),
            None => None::<(Pubkey, u8)>,
        },
{
    let seeds: Vec<&[u8]> = seeds.iter().map(|seed| seed.as_slice()).collect();
    let program_id = solana_program::pubkey::Pubkey::new_from_array(program_id.bytes);
    match solana_program::pubkey::Pubkey::try_find_program_address(&seeds, &program_id) {
        Some((key, bump)) => Some((Pubkey { bytes: key.to_bytes() }, bump)),
        None => None,
    }
}

impl Pubkey {
    /// The address that a program derives from seeds, and its bump.
    pub open spec fn derived(seeds: Seq<Seq<u8>>, program_id: Seq<u8>) -> Option<(Pubkey, u8)> {
        match program_address(seeds, program_id) {
            Some((bytes, bump)) => Some((Pubkey { bytes }, bump)),
            None => None,
        }
    }

    /// Derives the address that belongs to a program under the given seeds,
    /// and the bump that makes it one.
    pub fn find_program_address(seeds: &Vec<Vec<u8>>, program_id: &Pubkey) -> (found: Option<
        (Pubkey, u8),
    >)
        ensures
            found == Pubkey::derived(seed_views(seeds@), program_id.bytes@),
    {
        try_find_program_address(seeds, program_id)
    }

    /// The bytes of the address, as a vector.
    pub fn to_vec(&self) -> (bytes: Vec<u8>)
        ensures
            bytes@ == self.bytes@,
    {
        let mut bytes: Vec<u8> = Vec::new();
        let mut i: usize = 0;
        while i < 32
            invariant
                i <= 32,
                bytes@ == self.bytes@.subrange(0, i as int),
            decreases 32 - i,
        {
            bytes.push(self.bytes[i]);
            assert(bytes@ =~= self.bytes@.subrange(0, i + 1));
            i += 1;
        }
        assert(bytes@ =~= self.bytes@);
        bytes
    }

    /// The address that a text stands for, as far as it stands for one.
    pub open spec fn of_text(text: Seq<char>) -> Option<Pubkey> {
        match pubkey_from_str(text) {
            Some(bytes) => Some(Pubkey { bytes }),
            None => None,
        }
    }

    /// Reads an address from its text in base 58.
    pub fn parse(text: &str) -> (key: Option<Pubkey>)
        ensures
            key == Pubkey::of_text(text@),
    {
        parse_pubkey(text)
    }

    /// The address whose bytes are all zero, which stands for "none".
    pub open spec fn zero() -> Pubkey {
        Pubkey { bytes: spec_array_fill_for_copy_type::<u8, 32>(0u8) }
    }

    /// Whether every byte of the address is zero.
    pub open spec fn is_zero(self) -> bool {
        forall|i: int| 0 <= i < 32 ==> self.bytes@[i] == 0u8
    }

    /// The zero address is the one address whose bytes are all zero.
    pub proof fn lemma_zero(self)
        ensures
            self.is_zero() <==> self == Pubkey::zero(),
    {
        vstd::array::axiom_spec_array_fill_for_copy_type::<u8, 32>(0u8);
        if self.is_zero() {
            assert(self.bytes =~= Pubkey::zero().bytes);
        }
    }

    /// The address with the given bytes.
    pub fn new_from_array(bytes: [u8; 32]) -> (key: Pubkey)
        ensures
            key.bytes == bytes,
    {
        Pubkey { bytes }
    }

    /// The bytes of the address.
    pub fn to_bytes(&self) -> (bytes: [u8; 32])
        ensures
            bytes == self.bytes,
    {
        self.bytes
    }
}

impl PartialEq for Pubkey {
    fn eq(&self, other: &Pubkey) -> (same: bool) {
        let mut i: usize = 0;
        while i < 32
            invariant
                i <= 32,
                forall|j: int| 0 <= j < i ==> self.bytes@[j] == other.bytes@[j],
            decreases 32 - i,
        {
            if self.bytes[i] != other.bytes[i] {
                return false;
            }
            i += 1;
        }
        assert(self.bytes =~= other.bytes);
        true
    }
}

impl vstd::std_specs::cmp::PartialEqSpecImpl for Pubkey {
    open spec fn obeys_eq_spec() -> bool {
        true
    }

    open spec fn eq_spec(&self, other: &Pubkey) -> bool {
        *self == *other
    }
}

impl Eq for Pubkey {}

impl Default for Pubkey {
    fn default() -> (key: Pubkey)
        ensures
            key == Pubkey::zero(),
    {
        let key = Pubkey { bytes: [0u8; 32] };
        proof {
            key.lemma_zero();
        }
        key
    }
}

} // verus!
