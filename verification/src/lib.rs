//! Issuance of limited-edition assets on a token ledger.
//!
//! A mint is handed to an authority of the program (`delegation`), gets its
//! metadata from a blob of fixed layout (`attachment`), is promoted to a master
//! edition (`promotion`) and then issues numbered editions (`derivation`).
//! Each operation decides on the records it is given whether the request is
//! in order, and builds the instruction for the token ledger (`ledger`) or the
//! metadata registry (`registry`) that carries it out. Sending the instruction
//! is left to the caller, who hands the reply to `error::settle`.

pub mod accounts;
pub mod attachment;
pub mod authority;
pub mod blob;
pub mod delegation;
pub mod derivation;
pub mod error;
pub mod instruction;
pub mod laws;
pub mod ledger;
pub mod promotion;
pub mod pubkey;
pub mod registry;
pub mod state;
pub mod store;
pub mod tokens;

pub use accounts::{
    AccountInfo, BaseAccount, Buy, ChangeOwnership, CreateAssociated, CreateMetadata, Edition,
    Faucet, Initialize, ProxyTransfer, PuffMetadata, SetAuthority,
};
pub use attachment::{confirm_metadata, create_metadata, metadata, puff_metadata};
pub use delegation::{change_ownership, delegate_authority, faucet, set_authority};
pub use derivation::{buy, derive_edition};
pub use error::{settle, Capability, ErrorCode};
pub use promotion::{edition, promote_to_master};
pub use store::initialize;
pub use tokens::{create_associated_account, proxy_transfer};
