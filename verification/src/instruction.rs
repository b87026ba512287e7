//! Instructions for the token ledger and the metadata registry.

use vstd::prelude::*;
use crate::pubkey::Pubkey;

verus! {

/// An account named by an instruction, with the rights the instruction asks for.
#[derive(Clone, Copy, Debug, PartialEq, Eq)]
pub struct AccountMeta {
    pub pubkey: Pubkey,
    pub is_signer: bool,
    pub is_writable: bool,
}

impl AccountMeta {
    /// The entry for the account at `bytes` with the given rights.
    pub fn new(bytes: [u8; 32], is_signer: bool, is_writable: bool) -> (meta: AccountMeta)
        ensures
            meta == (AccountMeta { pubkey: Pubkey { bytes }, is_signer, is_writable }),
    {
        AccountMeta { pubkey: Pubkey { bytes }, is_signer, is_writable }
    }
}

/// A call to a program of the ledger: the program, the accounts it is given and
/// the bytes that say what to do.
#[derive(Debug, PartialEq, Eq)]
pub struct Instruction {
    pub program_id: Pubkey,
    pub accounts: Vec<AccountMeta>,
    pub data: Vec<u8>,
}

impl Instruction {
    /// The instruction for the program at `program` with the given accounts and data.
    pub fn new(program: [u8; 32], accounts: Vec<AccountMeta>, data: Vec<u8>) -> (ix: Instruction)
        ensures
            ix == (Instruction { program_id: Pubkey { bytes: program }, accounts, data }),
    {
        Instruction { program_id: Pubkey { bytes: program }, accounts, data }
    }
}

/// An instruction as a mathematical value.
pub struct InstructionView {
    pub program_id: Pubkey,
    pub accounts: Seq<AccountMeta>,
    pub data: Seq<u8>,
}

impl View for Instruction {
    type V = InstructionView;

    open spec fn view(&self) -> InstructionView {
        InstructionView { program_id: self.program_id, accounts: self.accounts@, data: self.data@ }
    }
}

/// An account that the instruction may change.
pub open spec fn writable(key: Pubkey, signer: bool) -> AccountMeta {
    AccountMeta { pubkey: key, is_signer: signer, is_writable: true }
}

/// An account that the instruction only reads.
pub open spec fn readonly(key: Pubkey, signer: bool) -> AccountMeta {
    AccountMeta { pubkey: key, is_signer: signer, is_writable: false }
}

/// The instruction names `key` as its account number `index`.
pub open spec fn names_account(ix: Instruction, index: int, key: Pubkey) -> bool {
    0 <= index < ix.accounts@.len() && ix.accounts@[index].pubkey == key
}

/// Tells whether the instruction names `key` as its account number `index`.
pub fn check_names_account(ix: &Instruction, index: usize, key: &Pubkey) -> (named: bool)
    ensures
        named == names_account(*ix, index as int, *key),
{
    index < ix.accounts.len() && ix.accounts[index].pubkey.same(key)
}

} // verus!
