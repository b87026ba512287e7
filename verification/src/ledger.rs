//! The token ledger: the instructions of its primitives.

use vstd::prelude::*;
use crate::instruction::{readonly, writable, AccountMeta, Instruction, InstructionView};
use crate::pubkey::{
    associated_token_program_key, rent_sysvar_key, system_program_key, token_program_key, Pubkey,
};
use vstd::bytes::spec_u64_to_le_bytes;
use spl_token::solana_program::program_error::ProgramError;
use spl_token::solana_program::pubkey::Pubkey as Key;

verus! {

/// `solana_program::program_error::ProgramError`, the error of the ledger's
/// programs. It is carried through unread.
#[verifier::external_type_specification]
#[verifier::external_body]
pub struct ExProgramError(ProgramError);

/// Which authority of a mint or of a token account an instruction replaces.
#[derive(Clone, Copy, Debug, PartialEq, Eq)]
pub enum AuthorityType {
    /// The right to mint new tokens of a mint.
    MintTokens,
    /// The ownership of a token account.
    AccountOwner,
}

/// The byte that stands for an authority kind in an instruction.
pub open spec fn authority_byte(kind: AuthorityType) -> u8 {
    match kind {
        AuthorityType::MintTokens => 0,
        AuthorityType::AccountOwner => 2,
    }
}

/// The instruction that replaces an authority of `owned` by `new_authority`,
/// signed by the current authority `owner`.
pub open spec fn set_authority_instruction(
    owned: Pubkey,
    new_authority: Pubkey,
    kind: AuthorityType,
    owner: Pubkey,
) -> InstructionView {
    InstructionView {
        program_id: token_program_key(),
        accounts: seq![writable(owned, false), readonly(owner, false), readonly(owner, true)],
        data: seq![6u8, authority_byte(kind), 1u8] + new_authority@,
    }
}

/// Calls `spl_token::instruction::set_authority` with `new_authority` as the new
/// authority and `owner` as the only signer. The call fails exactly when
/// `program` is not the token program. Otherwise the instruction names the
/// token program, lists `owned` writable, then `owner` twice, read-only (the
/// second time as signer), and its data is the tag 6, the authority kind's
/// byte, the byte 1 and the new authority's address.
#[verifier::external_body]
pub(crate) fn build_set_authority(
    program: &Pubkey,
    owned: &Pubkey,
    new_authority: &Pubkey,
    kind: AuthorityType,
    owner: &Pubkey,
) -> (built: Result<Instruction, ProgramError>)
    ensures
        built is Ok <==> *program == token_program_key(),
        built matches Ok(ix) ==> ix@ == set_authority_instruction(
            *owned,
            *new_authority,
            kind,
            *owner,
        ),
{
    let kind = match kind {
        AuthorityType::MintTokens => spl_token::instruction::AuthorityType::MintTokens,
        AuthorityType::AccountOwner => spl_token::instruction::AuthorityType::AccountOwner,
    };
    let (program, owned) = (Key::new_from_array(program.bytes), Key::new_from_array(owned.bytes));
    let (to, owner) = (Key::new_from_array(new_authority.bytes), Key::new_from_array(owner.bytes));
    let ix = spl_token::instruction::set_authority(&program, &owned, Some(&to), kind, &owner, &[&owner])?;
    let accounts = ix.accounts.iter().map(|m| AccountMeta::new(m.pubkey.to_bytes(), m.is_signer, m.is_writable));
    Ok(Instruction::new(ix.program_id.to_bytes(), accounts.collect(), ix.data))
}

/// The accounts of an instruction that changes `first` and `second` under the
/// authority `owner`, with `owner` as the only signer.
pub open spec fn movement_accounts(first: Pubkey, second: Pubkey, owner: Pubkey) -> Seq<AccountMeta> {
    seq![writable(first, false), writable(second, false), readonly(owner, false), readonly(owner, true)]
}

/// The instruction that mints `amount` units of `mint` to `account`, signed by
/// the mint authority `owner`.
pub open spec fn mint_to_instruction(
    mint: Pubkey,
    account: Pubkey,
    owner: Pubkey,
    amount: u64,
) -> InstructionView {
    InstructionView {
        program_id: token_program_key(),
        accounts: movement_accounts(mint, account, owner),
        data: seq![7u8] + spec_u64_to_le_bytes(amount),
    }
}

/// Calls `spl_token::instruction::mint_to` with `owner` as the only signer. The
/// call fails exactly when `program` is not the token program. Otherwise the
/// instruction names the token program, lists `mint` and `account` writable,
/// then `owner` twice, read-only (the second time as signer), and its data is
/// the tag 7 and the amount in eight bytes, lowest first.
#[verifier::external_body]
pub(crate) fn build_mint_to(
    program: &Pubkey,
    mint: &Pubkey,
    account: &Pubkey,
    owner: &Pubkey,
    amount: u64,
) -> (built: Result<Instruction, ProgramError>)
    ensures
        built is Ok <==> *program == token_program_key(),
        built matches Ok(ix) ==> ix@ == mint_to_instruction(*mint, *account, *owner, amount),
{
    let (program, mint) = (Key::new_from_array(program.bytes), Key::new_from_array(mint.bytes));
    let (account, owner) = (Key::new_from_array(account.bytes), Key::new_from_array(owner.bytes));
    let ix = spl_token::instruction::mint_to(&program, &mint, &account, &owner, &[&owner], amount)?;
    let accounts = ix.accounts.iter().map(|m| AccountMeta::new(m.pubkey.to_bytes(), m.is_signer, m.is_writable));
    Ok(Instruction::new(ix.program_id.to_bytes(), accounts.collect(), ix.data))
}

/// The instruction that moves `amount` units from `source` to `destination`,
/// signed by `authority` itself.
pub open spec fn transfer_instruction(
    source: Pubkey,
    destination: Pubkey,
    authority: Pubkey,
    amount: u64,
) -> InstructionView {
    InstructionView {
        program_id: token_program_key(),
        accounts: seq![
            writable(source, false),
            writable(destination, false),
            readonly(authority, true),
        ],
        data: seq![3u8] + spec_u64_to_le_bytes(amount),
    }
}

/// Calls `spl_token::instruction::transfer` with no further signers. The call
/// fails exactly when `program` is not the token program. Otherwise the
/// instruction names the token program, lists `source` and `destination`
/// writable, then `authority` read-only as signer, and its data is the tag 3
/// and the amount in eight bytes, lowest first.
#[verifier::external_body]
pub(crate) fn build_transfer(
    program: &Pubkey,
    source: &Pubkey,
    destination: &Pubkey,
    authority: &Pubkey,
    amount: u64,
) -> (built: Result<Instruction, ProgramError>)
    ensures
        built is Ok <==> *program == token_program_key(),
        built matches Ok(ix) ==> ix@ == transfer_instruction(
            *source,
            *destination,
            *authority,
            amount,
        ),
{
    let (program, source) = (Key::new_from_array(program.bytes), Key::new_from_array(source.bytes));
    let (to, owner) = (Key::new_from_array(destination.bytes), Key::new_from_array(authority.bytes));
    let ix = spl_token::instruction::transfer(&program, &source, &to, &owner, &[], amount)?;
    let accounts = ix.accounts.iter().map(|m| AccountMeta::new(m.pubkey.to_bytes(), m.is_signer, m.is_writable));
    Ok(Instruction::new(ix.program_id.to_bytes(), accounts.collect(), ix.data))
}

/// The address of the token account that the ledger associates with a wallet
/// and a mint: what `spl_associated_token_account::get_associated_token_address`
/// derives from the two addresses.
pub uninterp spec fn associated_token_address(wallet: Seq<u8>, mint: Seq<u8>) -> Seq<u8>;

/// The instruction that creates the token account `associated` of `wallet` for
/// `mint`, paid for by `funding`.
pub open spec fn create_account_instruction(
    funding: Pubkey,
    associated: Pubkey,
    wallet: Pubkey,
    mint: Pubkey,
) -> InstructionView {
    InstructionView {
        program_id: associated_token_program_key(),
        accounts: seq![
            writable(funding, true),
            writable(associated, false),
            readonly(wallet, false),
            readonly(mint, false),
            readonly(system_program_key(), false),
            readonly(token_program_key(), false),
            readonly(rent_sysvar_key(), false),
        ],
        data: Seq::empty(),
    }
}

/// Calls `spl_associated_token_account::create_associated_token_account`. The
/// instruction names the associated-token program, carries no data and lists
/// seven accounts: `funding` writable as signer, the associated account
/// writable, then read-only `wallet`, `mint`, the system program, the token
/// program and the rent sysvar. The associated account is the one derived from
/// `wallet` and `mint`. The derivation tries up to 256 candidates and panics if
/// all of them lie on the curve; no such pair of addresses is known.
#[allow(deprecated)]
#[verifier::external_body]
pub(crate) fn build_create_account(funding: &Pubkey, wallet: &Pubkey, mint: &Pubkey) -> (ix: Instruction)
    ensures
        ix.accounts@.len() == 7,
        ix.accounts@[1].pubkey@ == associated_token_address(wallet@, mint@),
        ix@ == create_account_instruction(*funding, ix.accounts@[1].pubkey, *wallet, *mint),
{
    let (funding, wallet) = (Key::new_from_array(funding.bytes), Key::new_from_array(wallet.bytes));
    let mint = Key::new_from_array(mint.bytes);
    let ix = spl_associated_token_account::create_associated_token_account(&funding, &wallet, &mint);
    let accounts = ix.accounts.iter().map(|m| AccountMeta::new(m.pubkey.to_bytes(), m.is_signer, m.is_writable));
    Instruction::new(ix.program_id.to_bytes(), accounts.collect(), ix.data)
}

/// Calls `u64::from` on a `ProgramError`: the number by which the ledger reports
/// the error. Nothing is claimed of the number.
#[verifier::external_body]
pub(crate) fn error_number(error: ProgramError) -> (number: u64) {
    u64::from(error)
}

} // verus!
