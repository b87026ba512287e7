//! Master promotion: a mint with its metadata becomes the template of numbered
//! editions.

use vstd::prelude::*;
use crate::accounts::Edition;
use crate::error::ErrorCode;
use crate::instruction::Instruction;
use crate::pubkey::Pubkey;
use crate::registry::{build_create_master_edition, create_master_edition_instruction};
use crate::state::{Asset, MasterEdition};

verus! {

/// The cap on editions that `edition` sets.
pub const EDITION_CAP: u64 = 1;

/// The accounts of a promotion in the order in which the registry's
/// instruction takes them.
pub open spec fn promotion_keys(ctx: Edition) -> Seq<Pubkey> {
    seq![
        ctx.metadata_program.key,
        ctx.master_edition_account.key,
        ctx.mint.key,
        ctx.update_authority.key,
        ctx.mint_authority.key,
        ctx.metadata_account.key,
        ctx.payer.key,
    ]
}

/// Why a promotion is refused, if it is: a mint without metadata first, then a
/// mint promoted before, then a missing signature.
pub open spec fn promotion_refusal(ctx: Edition, asset: Asset) -> Option<ErrorCode> {
    match asset.metadata {
        None => Some(ErrorCode::MetadataMissing),
        Some(record) => if asset.master is Some {
            Some(ErrorCode::AlreadyMaster)
        } else if !ctx.payer.is_signer || !ctx.mint_authority.spec_signs_for(
            asset.mint.mint_authority,
        ) || !ctx.update_authority.spec_signs_for(record.update_authority) {
            Some(ErrorCode::UnauthorizedSigner)
        } else {
            None
        },
    }
}

/// What a promotion comes to, with the asset before and after it.
pub open spec fn promotion_outcome(
    outcome: Result<Instruction, ErrorCode>,
    ctx: Edition,
    max_supply: Option<u64>,
    before: Asset,
    after: Asset,
) -> bool {
    match outcome {
        Ok(issued) => {
            &&& promotion_refusal(ctx, before) is None
            &&& issued@ == create_master_edition_instruction(promotion_keys(ctx), max_supply)
            &&& after == (Asset {
                master: Some(MasterEdition { max_supply, current_supply: 0 }),
                ..before
            })
        },
        Err(e) => promotion_refusal(ctx, before) == Some(e) && after == before,
    }
}

/// Promotes a mint and its metadata to a master edition that may issue up to
/// `max_supply` editions, or any number where `max_supply` is `None`. The
/// master edition starts with no edition issued.
///
/// Fails with `MetadataMissing` when the mint has no metadata, with
/// `AlreadyMaster` when it was promoted before, and with `UnauthorizedSigner`
/// unless the payer, the mint's authority and the metadata's update authority
/// signed. On failure the asset is as it was.
pub fn promote_to_master(ctx: &Edition, asset: &mut Asset, max_supply: Option<u64>) -> (outcome:
    Result<Instruction, ErrorCode>)
    ensures
        promotion_outcome(outcome, *ctx, max_supply, *old(asset), *final(asset)),
{
    let signed = match &asset.metadata {
        None => {
            return Err(ErrorCode::MetadataMissing);
        },
        Some(record) => ctx.payer.is_signer && ctx.mint_authority.signs_for(
            &asset.mint.mint_authority,
        ) && ctx.update_authority.signs_for(&record.update_authority),
    };
    if asset.master.is_some() {
        return Err(ErrorCode::AlreadyMaster);
    }
    if !signed {
        return Err(ErrorCode::UnauthorizedSigner);
    }
    let keys = [
        ctx.metadata_program.key,
        ctx.master_edition_account.key,
        ctx.mint.key,
        ctx.update_authority.key,
        ctx.mint_authority.key,
        ctx.metadata_account.key,
        ctx.payer.key,
    ];
    let issued = build_create_master_edition(&keys, max_supply);
    assert(keys@ =~= promotion_keys(*ctx));
    asset.master = Some(MasterEdition { max_supply, current_supply: 0 });
    Ok(issued)
}

/// Promotes a mint and its metadata to a master edition that may issue
/// `EDITION_CAP` editions.
pub fn edition(ctx: &Edition, asset: &mut Asset) -> (outcome: Result<Instruction, ErrorCode>)
    ensures
        promotion_outcome(outcome, *ctx, Some(EDITION_CAP), *old(asset), *final(asset)),
{
    promote_to_master(ctx, asset, Some(EDITION_CAP))
}

} // verus!
