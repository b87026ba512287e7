//! What holds of the operations taken together.

use vstd::prelude::*;
use crate::accounts::{Buy, CreateMetadata, Edition, Faucet, ProxyTransfer, SetAuthority};
use crate::attachment::{attachment_outcome, attachment_refusal};
use crate::blob::{blob_refusal, BlobLayout};
use crate::delegation::{delegation_outcome, faucet_refusal};
use crate::derivation::{derivation_outcome, Issued};
use crate::error::ErrorCode;
use crate::instruction::{Instruction, InstructionView};
use crate::ledger::AuthorityType;
use crate::promotion::{promotion_outcome, promotion_refusal};
use crate::pubkey::Pubkey;
use crate::state::{stage_rank, Asset, MasterEdition, Mint, Stage, TokenAccount};
use crate::tokens::transfer_refusal;

verus! {

/// The mint after its authority has been handed to `pda`.
pub open spec fn delegated(mint: Mint, pda: Pubkey) -> Mint {
    Mint { mint_authority: pda, ..mint }
}

/// After a delegation has succeeded, a further delegation signed by the key
/// that held the authority before is refused as unauthorized, whatever else it
/// asks for. (A delegation to the key that holds the authority changes
/// nothing, and is left out.)
pub proof fn lemma_delegation_shuts_out_old_authority(
    mint: Mint,
    ctx: SetAuthority,
    first: Result<InstructionView, ErrorCode>,
    later_ctx: SetAuthority,
    later: Result<InstructionView, ErrorCode>,
)
    requires
        delegation_outcome(
            first,
            ctx.token_program.key,
            ctx.mint.key,
            mint.mint_authority,
            ctx.signer,
            ctx.pda.key,
            AuthorityType::MintTokens,
        ),
        first is Ok,
        ctx.pda.key != mint.mint_authority,
        later_ctx.signer.key == mint.mint_authority,
        delegation_outcome(
            later,
            later_ctx.token_program.key,
            later_ctx.mint.key,
            delegated(mint, ctx.pda.key).mint_authority,
            later_ctx.signer,
            later_ctx.pda.key,
            AuthorityType::MintTokens,
        ),
    ensures
        later == Err::<InstructionView, ErrorCode>(ErrorCode::UnauthorizedSigner),
{
}

/// After a delegation, the key that held the authority before cannot mint
/// through the faucet: presented as the program's authority it is refused as
/// unauthorized, whatever the bump gives.
pub proof fn lemma_delegation_shuts_out_old_authority_from_faucet(
    mint: Mint,
    pda: Pubkey,
    ctx: Faucet,
    account: TokenAccount,
    derives: bool,
)
    requires
        pda != mint.mint_authority,
        ctx.pda.key == mint.mint_authority,
    ensures
        faucet_refusal(ctx, delegated(mint, pda), account, derives) == Some(
            ErrorCode::UnauthorizedSigner,
        ),
{
}

/// After a delegation, the key that held the authority before cannot attach
/// metadata to the mint: a well-formed blob signed for by that key is refused
/// as unauthorized.
pub proof fn lemma_delegation_shuts_out_old_authority_from_attachment(
    asset: Asset,
    pda: Pubkey,
    ctx: CreateMetadata,
    blob: Seq<u8>,
    layout: BlobLayout,
    update_authority_is_signer: bool,
)
    requires
        pda != asset.mint.mint_authority,
        ctx.mint_authority.key == asset.mint.mint_authority,
        blob_refusal(blob, layout) is None,
    ensures
        attachment_refusal(
            ctx,
            Asset { mint: delegated(asset.mint, pda), ..asset },
            blob,
            layout,
            update_authority_is_signer,
        ) == Some(ErrorCode::UnauthorizedSigner),
{
}

/// After a delegation, the key that held the authority before cannot promote
/// the mint: where the mint has metadata and is no master edition yet, a
/// promotion signed for by that key is refused as unauthorized.
pub proof fn lemma_delegation_shuts_out_old_authority_from_promotion(
    asset: Asset,
    pda: Pubkey,
    ctx: Edition,
)
    requires
        pda != asset.mint.mint_authority,
        ctx.mint_authority.key == asset.mint.mint_authority,
        asset.metadata is Some,
        asset.master is None,
    ensures
        promotion_refusal(ctx, Asset { mint: delegated(asset.mint, pda), ..asset }) == Some(
            ErrorCode::UnauthorizedSigner,
        ),
{
}

/// After a token account has been handed to `pda`, the key that owned it
/// before cannot move its tokens: a transfer under that key is refused as
/// unauthorized, whatever the amount.
pub proof fn lemma_delegation_shuts_out_old_owner(
    account: TokenAccount,
    pda: Pubkey,
    ctx: ProxyTransfer,
    to: TokenAccount,
    amount: u64,
)
    requires
        pda != account.owner,
        ctx.authority.key == account.owner,
    ensures
        transfer_refusal(ctx, TokenAccount { owner: pda, ..account }, to, amount) == Some(
            ErrorCode::UnauthorizedSigner,
        ),
{
}

/// A blob shorter than its three fields is refused as too short, whoever
/// signed and whatever the mint holds, and no record is created.
pub proof fn lemma_short_blob_creates_nothing(
    outcome: Result<Instruction, ErrorCode>,
    ctx: CreateMetadata,
    blob: Seq<u8>,
    layout: BlobLayout,
    terms: (u16, bool, bool),
    before: Asset,
    after: Asset,
)
    requires
        blob.len() < layout.total(),
        attachment_outcome(outcome, ctx, blob, layout, terms, before, after),
    ensures
        outcome == Err::<Instruction, ErrorCode>(ErrorCode::InputTooShort),
        after == before,
{
}

/// A mint without metadata is not promoted: the promotion fails with
/// `MetadataMissing`, and the mint has no master edition afterwards.
pub proof fn lemma_no_promotion_without_metadata(
    outcome: Result<Instruction, ErrorCode>,
    ctx: Edition,
    max_supply: Option<u64>,
    before: Asset,
    after: Asset,
)
    requires
        before.well_formed(),
        before.metadata is None,
        promotion_outcome(outcome, ctx, max_supply, before, after),
    ensures
        outcome == Err::<Instruction, ErrorCode>(ErrorCode::MetadataMissing),
        after.master is None,
{
}

/// Metadata is attached to a mint once: after an attachment has succeeded,
/// every further attachment to the mint fails and leaves the record as it is.
pub proof fn lemma_metadata_attaches_once(
    first: Result<Instruction, ErrorCode>,
    ctx: CreateMetadata,
    blob: Seq<u8>,
    layout: BlobLayout,
    terms: (u16, bool, bool),
    before: Asset,
    between: Asset,
    second: Result<Instruction, ErrorCode>,
    again: (CreateMetadata, Seq<u8>, BlobLayout, (u16, bool, bool)),
    after: Asset,
)
    requires
        attachment_outcome(first, ctx, blob, layout, terms, before, between),
        first is Ok,
        attachment_outcome(second, again.0, again.1, again.2, again.3, between, after),
    ensures
        second is Err,
        after == between,
{
}

/// A mint never goes back a stage, and a well-formed asset stays well formed,
/// whether an attachment succeeds or fails.
pub proof fn lemma_attachment_keeps_stage(
    outcome: Result<Instruction, ErrorCode>,
    ctx: CreateMetadata,
    blob: Seq<u8>,
    layout: BlobLayout,
    terms: (u16, bool, bool),
    before: Asset,
    after: Asset,
)
    requires
        before.well_formed(),
        attachment_outcome(outcome, ctx, blob, layout, terms, before, after),
    ensures
        after.well_formed(),
        stage_rank(before.spec_stage()) <= stage_rank(after.spec_stage()),
        outcome is Ok ==> before.spec_stage() == Stage::Created && after.spec_stage()
            == Stage::MetadataAttached,
{
}

/// A mint never goes back a stage, and a well-formed asset stays well formed,
/// whether a promotion succeeds or fails. A promoted mint stays promoted.
pub proof fn lemma_promotion_keeps_stage(
    outcome: Result<Instruction, ErrorCode>,
    ctx: Edition,
    max_supply: Option<u64>,
    before: Asset,
    after: Asset,
)
    requires
        before.well_formed(),
        promotion_outcome(outcome, ctx, max_supply, before, after),
    ensures
        after.well_formed(),
        stage_rank(before.spec_stage()) <= stage_rank(after.spec_stage()),
        outcome is Ok ==> before.spec_stage() == Stage::MetadataAttached && after.spec_stage()
            == Stage::Promoted,
        outcome is Ok ==> after.master == Some(MasterEdition { max_supply, current_supply: 0 }),
{
}

/// The count of editions never falls and never passes the cap: a derivation
/// adds one edition or none, and a well-formed master edition stays well
/// formed.
pub proof fn lemma_supply_grows_within_cap(
    outcome: Result<Issued, ErrorCode>,
    ctx: Buy,
    proof: TokenAccount,
    edition: u64,
    marked: bool,
    before: MasterEdition,
    after: MasterEdition,
)
    requires
        before.well_formed(),
        derivation_outcome(outcome, ctx, proof, edition, marked, before, after),
    ensures
        after.well_formed(),
        after.max_supply == before.max_supply,
        outcome is Ok ==> after.current_supply == before.current_supply + 1,
        outcome is Err ==> after.current_supply == before.current_supply,
{
}

/// Where each edition takes the number that the master edition gives out
/// next, the number of an edition is the count of editions after it: numbers
/// start at one, rise by one, and none is used twice or left out.
pub proof fn lemma_numbers_in_order_follow_the_count(
    outcome: Result<Issued, ErrorCode>,
    ctx: Buy,
    proof: TokenAccount,
    edition: u64,
    marked: bool,
    before: MasterEdition,
    after: MasterEdition,
)
    requires
        before.spec_next_edition_number() == Some(edition),
        derivation_outcome(outcome, ctx, proof, edition, marked, before, after),
    ensures
        outcome matches Ok(issued) ==> issued.edition.edition_number == after.current_supply,
        outcome matches Ok(issued) ==> after.spec_next_edition_number() matches Some(next)
            ==> next == issued.edition.edition_number + 1,
{
}

/// A master edition whose cap is reached refuses every derivation with
/// `SupplyExhausted`, and stays as it is: once exhausted, always exhausted.
pub proof fn lemma_exhausted_stays_exhausted(
    outcome: Result<Issued, ErrorCode>,
    ctx: Buy,
    proof: TokenAccount,
    edition: u64,
    marked: bool,
    before: MasterEdition,
    after: MasterEdition,
)
    requires
        before.well_formed(),
        before.max_supply == Some(before.current_supply),
        derivation_outcome(outcome, ctx, proof, edition, marked, before, after),
    ensures
        outcome == Err::<Issued, ErrorCode>(ErrorCode::SupplyExhausted),
        after == before,
{
}

/// With a cap of one, the first derivation that succeeds leaves one edition
/// counted, and the next one fails with `SupplyExhausted` and leaves the count
/// at one.
pub proof fn lemma_cap_of_one_allows_one_edition(
    first: Result<Issued, ErrorCode>,
    second: Result<Issued, ErrorCode>,
    calls: ((Buy, TokenAccount, u64, bool), (Buy, TokenAccount, u64, bool)),
    before: MasterEdition,
    between: MasterEdition,
    after: MasterEdition,
)
    requires
        before == (MasterEdition { max_supply: Some(1), current_supply: 0 }),
        derivation_outcome(
            first,
            calls.0.0,
            calls.0.1,
            calls.0.2,
            calls.0.3,
            before,
            between,
        ),
        first is Ok,
        derivation_outcome(
            second,
            calls.1.0,
            calls.1.1,
            calls.1.2,
            calls.1.3,
            between,
            after,
        ),
    ensures
        between.current_supply == 1,
        second == Err::<Issued, ErrorCode>(ErrorCode::SupplyExhausted),
        after.current_supply == 1,
{
}

/// `after` comes from `before` by a derivation that succeeded.
pub open spec fn derived_from(before: MasterEdition, after: MasterEdition) -> bool {
    exists|
        outcome: Result<Issued, ErrorCode>,
        ctx: Buy,
        proof: TokenAccount,
        edition: u64,
        marked: bool,
    |
        outcome is Ok && #[trigger] derivation_outcome(
            outcome,
            ctx,
            proof,
            edition,
            marked,
            before,
            after,
        )
}

/// The states of a master edition as successful derivations follow one
/// another: each state but the first comes from the one before it by a
/// derivation that succeeded.
pub open spec fn derivation_chain(states: Seq<MasterEdition>) -> bool {
    forall|i: int| 0 <= i < states.len() - 1 ==> derived_from(#[trigger] states[i], states[i + 1])
}

/// Across successful derivations from a master edition that starts with no
/// edition issued, the counts observed are 1, 2, 3 and so on, in the order of
/// the derivations: after the `i`-th the count is `i`.
pub proof fn lemma_supply_counts_derivations(states: Seq<MasterEdition>, i: int)
    requires
        states.len() > 0,
        states[0].current_supply == 0,
        derivation_chain(states),
        0 <= i < states.len(),
    ensures
        states[i].current_supply == i,
        states[i].max_supply == states[0].max_supply,
    decreases i,
{
    if i > 0 {
        lemma_supply_counts_derivations(states, i - 1);
        assert(derived_from(states[i - 1], states[i - 1 + 1]));
    }
}

} // verus!
