//! The metadata registry: the instructions of its primitives, and the record
//! that it keeps.

use vstd::prelude::*;
use vstd::bytes::{spec_u16_to_le_bytes, spec_u32_to_le_bytes, spec_u64_to_le_bytes};
use vstd::utf8::encode_utf8;
use crate::instruction::{readonly, writable, AccountMeta, Instruction, InstructionView};
use crate::pubkey::{rent_sysvar_key, system_program_key, token_program_key, Pubkey};
use crate::state::Creator;
use anchor_lang::solana_program::borsh::try_from_slice_unchecked;
use anchor_lang::solana_program::pubkey::Pubkey as Key;
use spl_token_metadata::state::Creator as RegistryCreator;

verus! {

/// A text as the registry's instructions carry it: the number of its bytes in
/// four bytes, lowest first, then the bytes.
pub open spec fn text_bytes(text: Seq<char>) -> Seq<u8> {
    spec_u32_to_le_bytes(encode_utf8(text).len() as u32) + encode_utf8(text)
}

/// A truth value as the registry's instructions carry it.
pub open spec fn flag_byte(flag: bool) -> u8 {
    if flag {
        1
    } else {
        0
    }
}

/// A creator as the registry's instructions carry it: address, verified flag,
/// share.
pub open spec fn creator_bytes(creator: Creator) -> Seq<u8> {
    creator.address@ + seq![flag_byte(creator.verified), creator.share]
}

/// Creators, one after the other.
pub open spec fn creators_bytes(creators: Seq<Creator>) -> Seq<u8>
    decreases creators.len(),
{
    if creators.len() == 0 {
        Seq::empty()
    } else {
        creators_bytes(creators.drop_last()) + creator_bytes(creators.last())
    }
}

/// The rest of every list of accounts that ends with the token program, the
/// system program and the rent sysvar.
pub open spec fn program_accounts() -> Seq<AccountMeta> {
    seq![
        readonly(token_program_key(), false),
        readonly(system_program_key(), false),
        readonly(rent_sysvar_key(), false),
    ]
}

/// The instruction that creates the metadata record of a mint. `keys` are, in
/// this order: the registry program, the metadata account, the mint, its mint
/// authority, the payer and the update authority.
pub open spec fn create_metadata_instruction(
    keys: Seq<Pubkey>,
    update_authority_is_signer: bool,
    text: (Seq<char>, Seq<char>, Seq<char>),
    creators: Seq<Creator>,
    seller_fee_basis_points: u16,
    is_mutable: bool,
) -> InstructionView {
    InstructionView {
        program_id: keys[0],
        accounts: seq![
            writable(keys[1], false),
            readonly(keys[2], false),
            readonly(keys[3], true),
            readonly(keys[4], true),
            readonly(keys[5], update_authority_is_signer),
            readonly(system_program_key(), false),
            readonly(rent_sysvar_key(), false),
        ],
        data: seq![0u8] + text_bytes(text.0) + text_bytes(text.1) + text_bytes(text.2)
            + spec_u16_to_le_bytes(seller_fee_basis_points) + seq![1u8] + spec_u32_to_le_bytes(
            creators.len() as u32,
        ) + creators_bytes(creators) + seq![flag_byte(is_mutable)],
    }
}

/// Calls `spl_token_metadata::instruction::create_metadata_accounts` with a
/// list of one creator. The instruction names the registry program and lists
/// seven accounts: the metadata account writable, then read-only the mint, the
/// mint authority and the payer as signers, the update authority (signer as
/// the flag says), the system program and the rent sysvar. Its data is the tag
/// 0, the three texts, the fee in two bytes, the byte 1, the number of
/// creators in four bytes, the creator, and the mutable flag. The call panics
/// on a text of more than `u32::MAX` bytes.
#[verifier::external_body]
pub(crate) fn build_create_metadata(
    keys: &[Pubkey; 6],
    update_authority_is_signer: bool,
    text: (String, String, String),
    creator: Creator,
    seller_fee_basis_points: u16,
    is_mutable: bool,
) -> (ix: Instruction)
    requires
        encode_utf8(text.0@).len() <= u32::MAX,
        encode_utf8(text.1@).len() <= u32::MAX,
        encode_utf8(text.2@).len() <= u32::MAX,
    ensures
        ix@ == create_metadata_instruction(
            keys@,
            update_authority_is_signer,
            (text.0@, text.1@, text.2@),
            seq![creator],
            seller_fee_basis_points,
            is_mutable,
        ),
{
    let k: Vec<Key> = keys.iter().map(|p| Key::new_from_array(p.bytes)).collect();
    let creator = RegistryCreator { address: Key::new_from_array(creator.address.bytes), verified: creator.verified, share: creator.share };
    let ix = spl_token_metadata::instruction::create_metadata_accounts(
        k[0], k[1], k[2], k[3], k[4], k[5], text.0, text.1, text.2, Some(vec![creator]),
        seller_fee_basis_points, update_authority_is_signer, is_mutable,
    );
    let accounts = ix.accounts.iter().map(|m| AccountMeta::new(m.pubkey.to_bytes(), m.is_signer, m.is_writable));
    Instruction::new(ix.program_id.to_bytes(), accounts.collect(), ix.data)
}

/// The instruction that promotes a mint and its metadata to a master edition.
/// `keys` are, in this order: the registry program, the master edition account,
/// the mint, the update authority, the mint authority, the metadata account and
/// the payer.
pub open spec fn create_master_edition_instruction(
    keys: Seq<Pubkey>,
    max_supply: Option<u64>,
) -> InstructionView {
    InstructionView {
        program_id: keys[0],
        accounts: seq![
            writable(keys[1], false),
            writable(keys[2], false),
            readonly(keys[3], true),
            readonly(keys[4], true),
            readonly(keys[6], true),
            readonly(keys[5], false),
        ] + program_accounts(),
        data: seq![10u8] + match max_supply {
            Some(cap) => seq![1u8] + spec_u64_to_le_bytes(cap),
            None => seq![0u8],
        },
    }
}

/// Calls `spl_token_metadata::instruction::create_master_edition`. The
/// instruction names the registry program and lists nine accounts: the edition
/// account and the mint writable, then read-only the update authority, the
/// mint authority and the payer as signers, the metadata account, the token
/// program, the system program and the rent sysvar. Its data is the tag 10 and
/// the cap: the byte 0 for none, else the byte 1 and the cap in eight bytes,
/// lowest first.
#[verifier::external_body]
pub(crate) fn build_create_master_edition(keys: &[Pubkey; 7], max_supply: Option<u64>) -> (ix: Instruction)
    ensures
        ix@ == create_master_edition_instruction(keys@, max_supply),
{
    let k: Vec<Key> = keys.iter().map(|p| Key::new_from_array(p.bytes)).collect();
    let ix = spl_token_metadata::instruction::create_master_edition(k[0], k[1], k[2], k[3], k[4], k[5], k[6], max_supply);
    let accounts = ix.accounts.iter().map(|m| AccountMeta::new(m.pubkey.to_bytes(), m.is_signer, m.is_writable));
    Instruction::new(ix.program_id.to_bytes(), accounts.collect(), ix.data)
}

/// The address of the account that marks an edition number of a master mint as
/// taken: what `spl_token_metadata::instruction::
/// mint_new_edition_from_master_edition_via_token` derives from the registry
/// program, the master's mint and the number.
pub uninterp spec fn edition_marker_address(program: Seq<u8>, master_mint: Seq<u8>, edition: u64) -> Seq<u8>;

/// The instruction that derives the edition numbered `edition` from a master
/// edition. `keys` are, in this order: the registry program, the new metadata
/// account, the new edition account, the master edition account, the new mint,
/// its mint authority, the payer, the owner of the buyer's token account, that
/// token account, the update authority of the new metadata, the master's
/// metadata account and the master's mint.
pub open spec fn mint_new_edition_instruction(
    keys: Seq<Pubkey>,
    marker: Pubkey,
    edition: u64,
) -> InstructionView {
    InstructionView {
        program_id: keys[0],
        accounts: seq![
            writable(keys[1], false),
            writable(keys[2], false),
            writable(keys[3], false),
            writable(keys[4], false),
            writable(marker, false),
            readonly(keys[5], true),
            writable(keys[6], true),
            readonly(keys[7], true),
            readonly(keys[8], false),
            readonly(keys[9], false),
            readonly(keys[10], false),
        ] + program_accounts(),
        data: seq![11u8] + spec_u64_to_le_bytes(edition),
    }
}

/// Calls `spl_token_metadata::instruction::
/// mint_new_edition_from_master_edition_via_token`. The instruction names the
/// registry program and lists fourteen accounts: writable the new metadata
/// account, the new edition account, the master edition account, the new mint
/// and the marker account; the new mint's authority read-only as signer; the
/// payer writable as signer; the owner of the token account read-only as
/// signer; then read-only the token account, the new update authority, the
/// master's metadata account, the token program, the system program and the
/// rent sysvar. The marker account is the one derived from the registry
/// program, the master's mint and the number. Its data is the tag 11 and the
/// number in eight bytes, lowest first. The derivation tries up to 256
/// candidates and panics if all of them lie on the curve; no such input is
/// known.
#[verifier::external_body]
pub(crate) fn build_mint_new_edition(keys: &[Pubkey; 12], edition: u64) -> (ix: Instruction)
    ensures
        ix.accounts@.len() == 14,
        ix.accounts@[4].pubkey@ == edition_marker_address(keys[0]@, keys[11]@, edition),
        ix@ == mint_new_edition_instruction(keys@, ix.accounts@[4].pubkey, edition),
{
    let k: Vec<Key> = keys.iter().map(|p| Key::new_from_array(p.bytes)).collect();
    let ix = spl_token_metadata::instruction::mint_new_edition_from_master_edition_via_token(
        k[0], k[1], k[2], k[3], k[4], k[5], k[6], k[7], k[8], k[9], k[10], k[11], edition,
    );
    let accounts = ix.accounts.iter().map(|m| AccountMeta::new(m.pubkey.to_bytes(), m.is_signer, m.is_writable));
    Instruction::new(ix.program_id.to_bytes(), accounts.collect(), ix.data)
}

/// The instruction that pads the text fields of a metadata record.
pub open spec fn puff_instruction(program: Pubkey, metadata_account: Pubkey) -> InstructionView {
    InstructionView {
        program_id: program,
        accounts: seq![writable(metadata_account, false)],
        data: seq![14u8],
    }
}

/// Calls `spl_token_metadata::instruction::puff_metadata_account`. The
/// instruction names `program`, lists the metadata account writable, and its
/// data is the tag 14.
#[verifier::external_body]
pub(crate) fn build_puff(program: &Pubkey, metadata_account: &Pubkey) -> (ix: Instruction)
    ensures
        ix@ == puff_instruction(*program, *metadata_account),
{
    let (program, account) = (Key::new_from_array(program.bytes), Key::new_from_array(metadata_account.bytes));
    let ix = spl_token_metadata::instruction::puff_metadata_account(program, account);
    let accounts = ix.accounts.iter().map(|m| AccountMeta::new(m.pubkey.to_bytes(), m.is_signer, m.is_writable));
    Instruction::new(ix.program_id.to_bytes(), accounts.collect(), ix.data)
}

/// The URI of the metadata record that the bytes of a registry account hold, or
/// `None` where the bytes do not begin with such a record: what
/// `solana_program::borsh::try_from_slice_unchecked`, read as
/// `spl_token_metadata::state::Metadata`, makes of the bytes.
pub uninterp spec fn stored_uri(data: Seq<u8>) -> Option<Seq<char>>;

/// Calls `solana_program::borsh::try_from_slice_unchecked` for a
/// `spl_token_metadata::state::Metadata` and hands out the record's URI, or
/// `None` where the call fails.
#[verifier::external_body]
pub(crate) fn read_stored_uri(data: &[u8]) -> (uri: Option<String>)
    ensures
        uri matches Some(text) ==> stored_uri(data@) == Some(text@),
        uri is None ==> stored_uri(data@) is None,
{
    try_from_slice_unchecked::<spl_token_metadata::state::Metadata>(data).ok().map(|m| m.data.uri)
}

} // verus!
