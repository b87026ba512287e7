//! Metadata attachment: the description of a mint's asset, cut out of a blob
//! and bound to the mint.

use vstd::prelude::*;
use vstd::string::*;
use vstd::utf8::encode_utf8;
use crate::accounts::{CreateMetadata, PuffMetadata};
use crate::blob::{blob_refusal, name_bytes, split_blob, symbol_bytes, uri_bytes, BlobLayout};
use crate::error::{ruled_out, Capability, ErrorCode};
use crate::instruction::Instruction;
use crate::pubkey::Pubkey;
use crate::registry::{
    build_create_metadata, build_puff, create_metadata_instruction, puff_instruction,
    read_stored_uri, stored_uri,
};
use crate::state::{total_share, Asset, Creator, Metadata};

verus! {

/// The fee on later sales that `metadata` asks for, in hundredths of a percent.
pub const SELLER_FEE_BASIS_POINTS: u16 = 20;

/// The one creator of a record: the payer, verified, with the whole share.
pub open spec fn sole_creator(payer: Pubkey) -> Creator {
    Creator { address: payer, verified: true, share: 100 }
}

/// The accounts of an attachment in the order in which the registry's
/// instruction takes them.
pub open spec fn attachment_keys(ctx: CreateMetadata) -> Seq<Pubkey> {
    seq![
        ctx.metadata_program.key,
        ctx.metadata_account.key,
        ctx.mint.key,
        ctx.mint_authority.key,
        ctx.payer.key,
        ctx.update_authority.key,
    ]
}

/// Why an attachment is refused, if it is: a malformed blob first, then a
/// missing signature, then a mint that has its metadata already.
pub open spec fn attachment_refusal(
    ctx: CreateMetadata,
    asset: Asset,
    blob: Seq<u8>,
    layout: BlobLayout,
    update_authority_is_signer: bool,
) -> Option<ErrorCode> {
    if blob_refusal(blob, layout) is Some {
        blob_refusal(blob, layout)
    } else if !ctx.payer.is_signer || !ctx.mint_authority.spec_signs_for(asset.mint.mint_authority)
        || (update_authority_is_signer && !ctx.update_authority.is_signer) {
        Some(ErrorCode::UnauthorizedSigner)
    } else if asset.metadata is Some {
        Some(ruled_out(Capability::CreateMetadata))
    } else {
        None
    }
}

/// The record is the one that an attachment creates from the blob.
pub open spec fn attached(
    record: Metadata,
    ctx: CreateMetadata,
    blob: Seq<u8>,
    layout: BlobLayout,
    seller_fee_basis_points: u16,
    is_mutable: bool,
) -> bool {
    &&& record.mint == ctx.mint.key
    &&& record.update_authority == ctx.update_authority.key
    &&& encode_utf8(record.name@) == name_bytes(blob, layout)
    &&& encode_utf8(record.symbol@) == symbol_bytes(blob, layout)
    &&& encode_utf8(record.uri@) == uri_bytes(blob, layout)
    &&& record.creators@ == seq![sole_creator(ctx.payer.key)]
    &&& record.seller_fee_basis_points == seller_fee_basis_points
    &&& record.is_mutable == is_mutable
}

/// What an attachment comes to, with the asset before and after it. `terms`
/// are the fee, whether the update authority signs, and whether the record
/// stays mutable.
pub open spec fn attachment_outcome(
    outcome: Result<Instruction, ErrorCode>,
    ctx: CreateMetadata,
    blob: Seq<u8>,
    layout: BlobLayout,
    terms: (u16, bool, bool),
    before: Asset,
    after: Asset,
) -> bool {
    match outcome {
        Ok(issued) => {
            &&& attachment_refusal(ctx, before, blob, layout, terms.1) is None
            &&& after.mint == before.mint
            &&& after.master == before.master
            &&& after.metadata matches Some(record) && {
                &&& attached(record, ctx, blob, layout, terms.0, terms.2)
                &&& record.well_formed()
                &&& issued@ == create_metadata_instruction(
                    attachment_keys(ctx),
                    terms.1,
                    (record.name@, record.symbol@, record.uri@),
                    record.creators@,
                    terms.0,
                    terms.2,
                )
            }
        },
        Err(e) => attachment_refusal(ctx, before, blob, layout, terms.1) == Some(e) && after
            == before,
    }
}

/// Creates the metadata record of a mint from a blob of three fields of fixed
/// width: name, symbol and URI. The record has one creator, the payer, who is
/// verified and holds the whole share.
///
/// Fails with `InputTooShort` when the blob is shorter than the three fields,
/// with `InvalidField` when a field is not text, and with `UnauthorizedSigner`
/// unless the payer signed, the mint's authority signed and, where
/// `update_authority_is_signer` is set, the update authority signed. A mint
/// that has a record already is ruled out as a failure of the registry. On
/// failure the asset is as it was.
pub fn create_metadata(
    ctx: &CreateMetadata,
    asset: &mut Asset,
    data: &str,
    layout: &BlobLayout,
    seller_fee_basis_points: u16,
    update_authority_is_signer: bool,
    is_mutable: bool,
) -> (outcome: Result<Instruction, ErrorCode>)
    ensures
        attachment_outcome(
            outcome,
            *ctx,
            data.spec_bytes(),
            *layout,
            (seller_fee_basis_points, update_authority_is_signer, is_mutable),
            *old(asset),
            *final(asset),
        ),
{
    let fields = split_blob(data, layout)?;
    if !ctx.payer.is_signer || !ctx.mint_authority.signs_for(&asset.mint.mint_authority) || (
    update_authority_is_signer && !ctx.update_authority.is_signer) {
        return Err(ErrorCode::UnauthorizedSigner);
    }
    if asset.metadata.is_some() {
        return Err(ErrorCode::CapabilityFailure { call: Capability::CreateMetadata, code: None });
    }
    let creator = Creator { address: ctx.payer.key, verified: true, share: 100 };
    let keys = [
        ctx.metadata_program.key,
        ctx.metadata_account.key,
        ctx.mint.key,
        ctx.mint_authority.key,
        ctx.payer.key,
        ctx.update_authority.key,
    ];
    let text = (fields.name.clone(), fields.symbol.clone(), fields.uri.clone());
    let issued = build_create_metadata(
        &keys,
        update_authority_is_signer,
        text,
        creator,
        seller_fee_basis_points,
        is_mutable,
    );
    let record = Metadata {
        mint: ctx.mint.key,
        update_authority: ctx.update_authority.key,
        name: fields.name,
        symbol: fields.symbol,
        uri: fields.uri,
        creators: vec![creator],
        seller_fee_basis_points,
        is_mutable,
    };
    proof {
        assert(keys@ =~= attachment_keys(*ctx));
        assert(record.creators@ =~= seq![creator]);
        assert(record.creators@.drop_last() =~= Seq::<Creator>::empty());
        reveal_with_fuel(total_share, 2);
    }
    asset.metadata = Some(record);
    Ok(issued)
}

/// Creates the metadata record of a mint from a blob of twenty bytes of name,
/// four of symbol and 116 of URI, with a fee of `SELLER_FEE_BASIS_POINTS`,
/// mutable, and with the update authority as a signer.
pub fn metadata(ctx: &CreateMetadata, asset: &mut Asset, data: &str) -> (outcome: Result<
    Instruction,
    ErrorCode,
>)
    ensures
        attachment_outcome(
            outcome,
            *ctx,
            data.spec_bytes(),
            BlobLayout::standard(),
            (SELLER_FEE_BASIS_POINTS, true, true),
            *old(asset),
            *final(asset),
        ),
{
    let layout = BlobLayout::standard();
    create_metadata(ctx, asset, data, &layout, SELLER_FEE_BASIS_POINTS, true, true)
}

/// `stored` is `text` followed by nothing but zero bytes: what the registry
/// keeps of a text once it has padded it to its full width.
pub open spec fn padded(text: Seq<u8>, stored: Seq<u8>) -> bool {
    &&& text.len() <= stored.len()
    &&& stored.subrange(0, text.len() as int) == text
    &&& forall|i: int| text.len() <= i < stored.len() ==> stored[i] == 0
}

/// Tells whether `stored` is `text` followed by nothing but zero bytes.
pub fn is_padded(text: &[u8], stored: &[u8]) -> (ok: bool)
    ensures
        ok == padded(text@, stored@),
{
    if text.len() > stored.len() {
        return false;
    }
    let mut i: usize = 0;
    while i < stored.len()
        invariant
            i <= stored.len(),
            text.len() <= stored.len(),
            forall|j: int| 0 <= j < i && j < text.len() ==> stored[j] == text[j],
            forall|j: int| text.len() <= j < i ==> stored[j] == 0,
        decreases stored.len() - i,
    {
        let expected = if i < text.len() {
            text[i]
        } else {
            0
        };
        if stored[i] != expected {
            assert(i < text.len() ==> stored@.subrange(0, text.len() as int)[i as int] != text[i as int]);
            return false;
        }
        i += 1;
    }
    assert(stored@.subrange(0, text.len() as int) =~= text@);
    true
}

/// What reading a record back comes to: the record must be there, and its URI
/// must be the one that was sent, padded or not. Anything else is a failure of
/// the registry.
pub open spec fn confirmation(uri: Seq<char>, stored: Option<Seq<char>>) -> Result<(), ErrorCode> {
    if stored matches Some(text) && padded(encode_utf8(uri), encode_utf8(text)) {
        Ok(())
    } else {
        Err(ruled_out(Capability::CreateMetadata))
    }
}

/// Holds the URI that was read back from the registry, if any, against the one
/// that was sent.
pub fn check_uri(uri: &str, stored: &Option<String>) -> (outcome: Result<(), ErrorCode>)
    ensures
        outcome == confirmation(
            uri@,
            match *stored {
                Some(text) => Some(text@),
                None => None,
            },
        ),
{
    let confirmed = match stored {
        Some(text) => is_padded(uri.as_bytes(), text.as_str().as_bytes()),
        None => false,
    };
    if confirmed {
        Ok(())
    } else {
        Err(ErrorCode::CapabilityFailure { call: Capability::CreateMetadata, code: None })
    }
}

/// Reads the record back from the bytes of the metadata account, once the
/// registry has created it, and confirms that it holds the URI that was sent.
/// This checks; it does not try again.
pub fn confirm_metadata(record: &Metadata, account_data: &[u8]) -> (outcome: Result<(), ErrorCode>)
    ensures
        outcome == confirmation(record.uri@, stored_uri(account_data@)),
{
    let stored = read_stored_uri(account_data);
    check_uri(record.uri.as_str(), &stored)
}

/// Asks the registry to pad the text fields of a metadata record to their full
/// width. The registry does this as best it can: `settle` does not treat its
/// rejection as a failure.
///
/// Fails with `UnauthorizedSigner` unless the signer signed.
pub fn puff_metadata(ctx: &PuffMetadata) -> (outcome: Result<Instruction, ErrorCode>)
    ensures
        match outcome {
            Ok(issued) => ctx.signer.is_signer && issued@ == puff_instruction(
                ctx.metadata_program.key,
                ctx.metadata_account.key,
            ),
            Err(e) => !ctx.signer.is_signer && e == ErrorCode::UnauthorizedSigner,
        },
{
    if !ctx.signer.is_signer {
        return Err(ErrorCode::UnauthorizedSigner);
    }
    Ok(build_puff(&ctx.metadata_program.key, &ctx.metadata_account.key))
}

} // verus!
