//! The authority that the program itself holds: an address derived from a seed
//! and a bump, for which no key exists.

use vstd::prelude::*;
use crate::pubkey::Pubkey;
use anchor_lang::solana_program::pubkey::Pubkey as Key;

verus! {

/// The address that a program derives from a seed and a bump, or `None` where
/// the two give no address: what `Pubkey::create_program_address` makes of the
/// seed, the one-byte seed of the bump and the program's address.
pub uninterp spec fn program_address(seed: Seq<u8>, bump: u8, program: Seq<u8>) -> Option<Seq<u8>>;

/// Calls `Pubkey::create_program_address` with the two seeds `seed` and
/// `[bump]`, and hands out the address, or `None` where the call fails.
#[verifier::external_body]
pub(crate) fn create_program_address(seed: &[u8], bump: u8, program: &Pubkey) -> (address: Option<Pubkey>)
    ensures
        address matches Some(key) ==> program_address(seed@, bump, program@) == Some(key@),
        address is None ==> program_address(seed@, bump, program@) is None,
{
    let derived = Key::create_program_address(&[seed, &[bump]], &Key::new_from_array(program.bytes));
    derived.ok().map(|key| Pubkey { bytes: key.to_bytes() })
}

} // verus!
