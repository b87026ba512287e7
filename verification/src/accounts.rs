//! The accounts that each operation is given.

use vstd::prelude::*;
use crate::pubkey::Pubkey;

verus! {

/// An account as it is presented to an operation: its address, and whether its
/// key signed the request.
#[derive(Clone, Copy, Debug, PartialEq, Eq)]
pub struct AccountInfo {
    pub key: Pubkey,
    pub is_signer: bool,
}

impl AccountInfo {
    /// The account signed, and it is `authority`.
    pub open spec fn spec_signs_for(&self, authority: Pubkey) -> bool {
        self.is_signer && self.key == authority
    }

    /// Tells whether the account signed and is `authority`.
    pub fn signs_for(&self, authority: &Pubkey) -> (ok: bool)
        ensures
            ok == self.spec_signs_for(*authority),
    {
        self.is_signer && self.key.same(authority)
    }
}

/// The text that `initialize` keeps: the latest entry, and every entry in the
/// order in which it came.
#[derive(Debug, PartialEq, Eq)]
pub struct BaseAccount {
    pub data: String,
    pub data_list: Vec<String>,
}

/// Accounts of `initialize`.
#[derive(Debug, PartialEq, Eq)]
pub struct Initialize {
    pub base_account: BaseAccount,
    pub user: AccountInfo,
    pub system_program: AccountInfo,
}

/// Accounts of `set_authority`.
#[derive(Clone, Copy, Debug, PartialEq, Eq)]
pub struct SetAuthority {
    pub signer: AccountInfo,
    pub mint: AccountInfo,
    pub pda: AccountInfo,
    pub token_program: AccountInfo,
}

/// Accounts of `faucet`.
#[derive(Clone, Copy, Debug, PartialEq, Eq)]
pub struct Faucet {
    pub signer: AccountInfo,
    pub mint: AccountInfo,
    pub user_account: AccountInfo,
    pub pda: AccountInfo,
    pub token_program: AccountInfo,
}

/// Accounts of `create_associated_account`.
#[derive(Clone, Copy, Debug, PartialEq, Eq)]
pub struct CreateAssociated {
    pub signer: AccountInfo,
    pub mint: AccountInfo,
    pub user_account: AccountInfo,
    pub token_program: AccountInfo,
    pub system_program: AccountInfo,
    pub rent_program: AccountInfo,
    pub associated_program: AccountInfo,
}

/// Accounts of `puff_metadata`.
#[derive(Clone, Copy, Debug, PartialEq, Eq)]
pub struct PuffMetadata {
    pub signer: AccountInfo,
    pub metadata_account: AccountInfo,
    pub mint: AccountInfo,
    pub metadata_program: AccountInfo,
}

/// Accounts of `buy`.
#[derive(Clone, Copy, Debug, PartialEq, Eq)]
pub struct Buy {
    pub payer: AccountInfo,
    pub metadata_program: AccountInfo,
    pub new_metadata_account: AccountInfo,
    pub new_edition_account: AccountInfo,
    pub master_edition_account: AccountInfo,
    pub new_mint_account: AccountInfo,
    pub new_mint_authority: AccountInfo,
    pub token_account_owner: AccountInfo,
    pub token_account: AccountInfo,
    pub new_metadata_update_authority: AccountInfo,
    pub metadata: AccountInfo,
    pub metadata_mint: AccountInfo,
    pub system_program: AccountInfo,
    pub rent_program: AccountInfo,
    pub edition_pda: AccountInfo,
    pub token_program: AccountInfo,
}

/// Accounts of `change_ownership`.
#[derive(Clone, Copy, Debug, PartialEq, Eq)]
pub struct ChangeOwnership {
    pub signer: AccountInfo,
    pub master_edition_account: AccountInfo,
    pub pda: AccountInfo,
    pub token_program: AccountInfo,
}

/// Accounts of `metadata`.
#[derive(Clone, Copy, Debug, PartialEq, Eq)]
pub struct CreateMetadata {
    pub payer: AccountInfo,
    pub mint: AccountInfo,
    pub mint_authority: AccountInfo,
    pub update_authority: AccountInfo,
    pub metadata_account: AccountInfo,
    pub master_edition_account: AccountInfo,
    pub metadata_program: AccountInfo,
    pub token_program: AccountInfo,
    pub system_program: AccountInfo,
    pub rent_program: AccountInfo,
}

/// Accounts of `edition`.
#[derive(Clone, Copy, Debug, PartialEq, Eq)]
pub struct Edition {
    pub payer: AccountInfo,
    pub mint: AccountInfo,
    pub mint_authority: AccountInfo,
    pub update_authority: AccountInfo,
    pub metadata_account: AccountInfo,
    pub master_edition_account: AccountInfo,
    pub metadata_program: AccountInfo,
    pub token_program: AccountInfo,
    pub system_program: AccountInfo,
    pub rent_program: AccountInfo,
}

/// Accounts of `proxy_transfer`.
#[derive(Clone, Copy, Debug, PartialEq, Eq)]
pub struct ProxyTransfer {
    pub authority: AccountInfo,
    pub from: AccountInfo,
    pub to: AccountInfo,
    pub token_program: AccountInfo,
}

} // verus!
