//! The records that the ledger and the registry keep for one asset.

use vstd::prelude::*;
use vstd::utf8::encode_utf8;
use crate::blob::{MAX_NAME_LENGTH, MAX_SYMBOL_LENGTH, MAX_URI_LENGTH};
use crate::pubkey::Pubkey;

verus! {

/// A class of tokens: how many exist, and who may mint more. A mint has one
/// authority at a time.
#[derive(Clone, Copy, Debug, PartialEq, Eq)]
pub struct Mint {
    pub supply: u64,
    pub decimals: u8,
    pub mint_authority: Pubkey,
}

/// A balance of one mint, owned by one key.
#[derive(Clone, Copy, Debug, PartialEq, Eq)]
pub struct TokenAccount {
    pub mint: Pubkey,
    pub owner: Pubkey,
    pub amount: u64,
}

/// One of the creators of an asset, with the share in percent.
#[derive(Clone, Copy, Debug, PartialEq, Eq)]
pub struct Creator {
    pub address: Pubkey,
    pub verified: bool,
    pub share: u8,
}

/// The description of a mint's asset.
#[derive(Debug, PartialEq, Eq)]
pub struct Metadata {
    pub mint: Pubkey,
    pub update_authority: Pubkey,
    pub name: String,
    pub symbol: String,
    pub uri: String,
    pub creators: Vec<Creator>,
    pub seller_fee_basis_points: u16,
    pub is_mutable: bool,
}

/// The sum of the creators' shares.
pub open spec fn total_share(creators: Seq<Creator>) -> int
    decreases creators.len(),
{
    if creators.len() == 0 {
        0
    } else {
        total_share(creators.drop_last()) + creators.last().share
    }
}

impl Metadata {
    /// The text fields are no longer than the registry stores, and the
    /// creators' shares add up to one hundred.
    pub open spec fn well_formed(&self) -> bool {
        &&& encode_utf8(self.name@).len() <= MAX_NAME_LENGTH
        &&& encode_utf8(self.symbol@).len() <= MAX_SYMBOL_LENGTH
        &&& encode_utf8(self.uri@).len() <= MAX_URI_LENGTH
        &&& total_share(self.creators@) == 100
    }
}

/// A mint promoted to a template for numbered editions. `max_supply` caps the
/// editions, `None` for no cap; `current_supply` counts those issued.
#[derive(Clone, Copy, Debug, PartialEq, Eq)]
pub struct MasterEdition {
    pub max_supply: Option<u64>,
    pub current_supply: u64,
}

impl MasterEdition {
    /// No more editions were issued than the cap allows.
    pub open spec fn well_formed(&self) -> bool {
        self.max_supply matches Some(cap) ==> self.current_supply <= cap
    }

    /// The cap is set and reached.
    pub open spec fn exhausted(&self) -> bool {
        self.max_supply matches Some(cap) && self.current_supply >= cap
    }

    /// Tells whether the cap is set and reached.
    pub fn is_exhausted(&self) -> (full: bool)
        ensures
            full == self.exhausted(),
            self.well_formed() ==> full == (self.max_supply == Some(self.current_supply)),
    {
        match self.max_supply {
            Some(cap) => self.current_supply >= cap,
            None => false,
        }
    }

    /// The number of the next edition where numbers are given out in order,
    /// starting at one: one more than the count of editions issued. There is
    /// none where the cap is reached or the count cannot grow.
    pub open spec fn spec_next_edition_number(&self) -> Option<u64> {
        if self.exhausted() || self.current_supply == u64::MAX {
            None
        } else {
            Some((self.current_supply + 1) as u64)
        }
    }

    /// The number of the next edition where numbers are given out in order.
    #[verifier::when_used_as_spec(spec_next_edition_number)]
    pub fn next_edition_number(&self) -> (number: Option<u64>)
        ensures
            number == self.spec_next_edition_number(),
    {
        if self.is_exhausted() || self.current_supply == u64::MAX {
            None
        } else {
            Some(self.current_supply + 1)
        }
    }
}

/// One numbered child of a master edition.
#[derive(Clone, Copy, Debug, PartialEq, Eq)]
pub struct EditionRecord {
    pub master: Pubkey,
    pub mint: Pubkey,
    pub edition_number: u64,
}

/// How far a mint has come on the way to issuing editions.
#[derive(Clone, Copy, Debug, PartialEq, Eq)]
pub enum Stage {
    /// The mint exists and has no metadata.
    Created,
    /// The mint has its metadata.
    MetadataAttached,
    /// The mint is a master edition.
    Promoted,
}

/// A mint with the records bound to it: at most one metadata record and, once
/// promoted, one master edition.
#[derive(Debug, PartialEq, Eq)]
pub struct Asset {
    pub mint: Mint,
    pub metadata: Option<Metadata>,
    pub master: Option<MasterEdition>,
}

impl Asset {
    /// A master edition has metadata, and both records are well formed.
    pub open spec fn well_formed(&self) -> bool {
        &&& self.master is Some ==> self.metadata is Some
        &&& self.metadata matches Some(metadata) ==> metadata.well_formed()
        &&& self.master matches Some(master) ==> master.well_formed()
    }

    /// The stage of the mint.
    pub open spec fn spec_stage(&self) -> Stage {
        if self.master is Some {
            Stage::Promoted
        } else if self.metadata is Some {
            Stage::MetadataAttached
        } else {
            Stage::Created
        }
    }

    /// A mint with no record bound to it yet.
    pub fn new(mint: Mint) -> (asset: Asset)
        ensures
            asset == (Asset { mint, metadata: None, master: None }),
            asset.well_formed(),
            asset.spec_stage() == Stage::Created,
    {
        Asset { mint, metadata: None, master: None }
    }

    /// The stage of the mint.
    #[verifier::when_used_as_spec(spec_stage)]
    pub fn stage(&self) -> (stage: Stage)
        ensures
            stage == self.spec_stage(),
    {
        if self.master.is_some() {
            Stage::Promoted
        } else if self.metadata.is_some() {
            Stage::MetadataAttached
        } else {
            Stage::Created
        }
    }
}

/// The place of a stage in the order in which a mint passes through them.
pub open spec fn stage_rank(stage: Stage) -> int {
    match stage {
        Stage::Created => 0,
        Stage::MetadataAttached => 1,
        Stage::Promoted => 2,
    }
}

} // verus!
