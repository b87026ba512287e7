//! Edition derivation: a numbered child of a master edition, issued against a
//! token of the master's mint.

use vstd::prelude::*;
use crate::accounts::Buy;
use crate::error::{ruled_out, Capability, ErrorCode};
use crate::instruction::{check_names_account, names_account, Instruction};
use crate::pubkey::{lemma_pubkey_by_bytes, Pubkey};
use crate::registry::{build_mint_new_edition, edition_marker_address, mint_new_edition_instruction};
use crate::state::{EditionRecord, MasterEdition, Mint, TokenAccount};

verus! {

/// Where the registry's instruction names the account that marks the edition
/// number as taken.
pub const MARKER_INDEX: usize = 4;

/// What a derivation leaves behind: the instruction for the registry, the
/// record of the new edition, the child mint with its one token, and the
/// account that holds the token.
#[derive(Debug, PartialEq, Eq)]
pub struct Issued {
    pub instruction: Instruction,
    pub edition: EditionRecord,
    pub child: Mint,
    pub holding: TokenAccount,
}

/// The accounts of a derivation in the order in which the registry's
/// instruction takes them.
pub open spec fn derivation_keys(ctx: Buy) -> Seq<Pubkey> {
    seq![
        ctx.metadata_program.key,
        ctx.new_metadata_account.key,
        ctx.new_edition_account.key,
        ctx.master_edition_account.key,
        ctx.new_mint_account.key,
        ctx.new_mint_authority.key,
        ctx.payer.key,
        ctx.token_account_owner.key,
        ctx.token_account.key,
        ctx.new_metadata_update_authority.key,
        ctx.metadata.key,
        ctx.metadata_mint.key,
    ]
}

/// Why a derivation is refused before the registry is asked, if it is: a cap
/// that is reached first, then a buyer's account without a token of the
/// master's mint, then a missing signature, then a count of editions that
/// cannot grow.
pub open spec fn derivation_refusal(
    ctx: Buy,
    master: MasterEdition,
    proof: TokenAccount,
) -> Option<ErrorCode> {
    if master.exhausted() {
        Some(ErrorCode::SupplyExhausted)
    } else if proof.mint != ctx.metadata_mint.key || proof.amount == 0 {
        Some(ErrorCode::InsufficientProof)
    } else if !ctx.payer.is_signer || !ctx.new_mint_authority.is_signer
        || !ctx.token_account_owner.spec_signs_for(proof.owner) {
        Some(ErrorCode::UnauthorizedSigner)
    } else if master.current_supply == u64::MAX {
        Some(ruled_out(Capability::MintNewEdition))
    } else {
        None
    }
}

/// The record of the edition that a derivation creates.
pub open spec fn new_edition(ctx: Buy, edition: u64) -> EditionRecord {
    EditionRecord {
        master: ctx.master_edition_account.key,
        mint: ctx.new_mint_account.key,
        edition_number: edition,
    }
}

/// The child mint after a derivation: one token exists.
pub open spec fn child_mint(ctx: Buy) -> Mint {
    Mint { supply: 1, decimals: 0, mint_authority: ctx.new_mint_authority.key }
}

/// The account that holds the child's token after a derivation: the buyer's.
pub open spec fn child_holding(ctx: Buy) -> TokenAccount {
    TokenAccount { mint: ctx.new_mint_account.key, owner: ctx.token_account_owner.key, amount: 1 }
}

/// What a derivation comes to, with the master edition before and after it.
/// `marked` says whether the account presented as `ctx.edition_pda` is the
/// one that marks the edition number.
pub open spec fn derivation_outcome(
    outcome: Result<Issued, ErrorCode>,
    ctx: Buy,
    proof: TokenAccount,
    edition: u64,
    marked: bool,
    before: MasterEdition,
    after: MasterEdition,
) -> bool {
    match outcome {
        Ok(issued) => {
            &&& derivation_refusal(ctx, before, proof) is None
            &&& marked
            &&& issued.edition == new_edition(ctx, edition)
            &&& issued.child == child_mint(ctx)
            &&& issued.holding == child_holding(ctx)
            &&& after == (MasterEdition {
                current_supply: (before.current_supply + 1) as u64,
                ..before
            })
        },
        Err(e) => {
            &&& after == before
            &&& match derivation_refusal(ctx, before, proof) {
                Some(refusal) => e == refusal,
                None => !marked && e == ruled_out(Capability::MintNewEdition),
            }
        },
    }
}

/// Derives the edition numbered `edition` from a master edition, given the
/// instruction `ix` that the registry's builder made for it. The caller
/// chooses the number.
///
/// Fails with `SupplyExhausted` when the cap is set and reached, with
/// `InsufficientProof` when the buyer's account holds no token of the master's
/// mint, and with `UnauthorizedSigner` unless the payer, the new mint's
/// authority and the owner of the buyer's account signed. A count of editions
/// that cannot grow, or an instruction that does not name `ctx.edition_pda` as
/// its marker account, is ruled out as a failure of the registry. On success
/// one more edition is counted; on failure the master edition is as it was.
pub fn derive_edition_with(
    ctx: &Buy,
    master: &mut MasterEdition,
    proof: &TokenAccount,
    edition: u64,
    ix: Instruction,
) -> (outcome: Result<Issued, ErrorCode>)
    ensures
        derivation_outcome(
            outcome,
            *ctx,
            *proof,
            edition,
            names_account(ix, MARKER_INDEX as int, ctx.edition_pda.key),
            *old(master),
            *final(master),
        ),
        outcome matches Ok(issued) ==> issued.instruction == ix,
{
    if master.is_exhausted() {
        return Err(ErrorCode::SupplyExhausted);
    }
    if !proof.mint.same(&ctx.metadata_mint.key) || proof.amount == 0 {
        return Err(ErrorCode::InsufficientProof);
    }
    if !ctx.payer.is_signer || !ctx.new_mint_authority.is_signer || !ctx.token_account_owner.signs_for(
        &proof.owner,
    ) {
        return Err(ErrorCode::UnauthorizedSigner);
    }
    if master.current_supply == u64::MAX || !check_names_account(
        &ix,
        MARKER_INDEX,
        &ctx.edition_pda.key,
    ) {
        return Err(ErrorCode::CapabilityFailure { call: Capability::MintNewEdition, code: None });
    }
    master.current_supply = master.current_supply + 1;
    Ok(
        Issued {
            instruction: ix,
            edition: EditionRecord {
                master: ctx.master_edition_account.key,
                mint: ctx.new_mint_account.key,
                edition_number: edition,
            },
            child: Mint { supply: 1, decimals: 0, mint_authority: ctx.new_mint_authority.key },
            holding: TokenAccount {
                mint: ctx.new_mint_account.key,
                owner: ctx.token_account_owner.key,
                amount: 1,
            },
        },
    )
}

/// Derives the edition numbered `edition` from a master edition: counts it,
/// records it, and issues the one token of the child mint to the buyer.
///
/// Fails as `derive_edition_with` does; the marker account is the one that the
/// registry derives from its program, the master's mint and the number.
pub fn derive_edition(ctx: &Buy, master: &mut MasterEdition, proof: &TokenAccount, edition: u64) -> (outcome:
    Result<Issued, ErrorCode>)
    ensures
        derivation_outcome(
            outcome,
            *ctx,
            *proof,
            edition,
            edition_marker_address(ctx.metadata_program.key@, ctx.metadata_mint.key@, edition)
                == ctx.edition_pda.key@,
            *old(master),
            *final(master),
        ),
        outcome matches Ok(issued) ==> issued.instruction@ == mint_new_edition_instruction(
            derivation_keys(*ctx),
            ctx.edition_pda.key,
            edition,
        ),
{
    let keys = [
        ctx.metadata_program.key,
        ctx.new_metadata_account.key,
        ctx.new_edition_account.key,
        ctx.master_edition_account.key,
        ctx.new_mint_account.key,
        ctx.new_mint_authority.key,
        ctx.payer.key,
        ctx.token_account_owner.key,
        ctx.token_account.key,
        ctx.new_metadata_update_authority.key,
        ctx.metadata.key,
        ctx.metadata_mint.key,
    ];
    let ix = build_mint_new_edition(&keys, edition);
    proof {
        assert(keys@ =~= derivation_keys(*ctx));
        lemma_pubkey_by_bytes(ix.accounts@[MARKER_INDEX as int].pubkey, ctx.edition_pda.key);
    }
    derive_edition_with(ctx, master, proof, edition, ix)
}

/// Sells one edition of a master edition: `derive_edition` under the name by
/// which buyers call it. The nonce of the program's authority is accepted and
/// not used: the buyer signs for the purchase.
pub fn buy(
    ctx: &Buy,
    master: &mut MasterEdition,
    proof: &TokenAccount,
    edition: u64,
    _pda_nonce: u8,
) -> (outcome: Result<Issued, ErrorCode>)
    ensures
        derivation_outcome(
            outcome,
            *ctx,
            *proof,
            edition,
            edition_marker_address(ctx.metadata_program.key@, ctx.metadata_mint.key@, edition)
                == ctx.edition_pda.key@,
            *old(master),
            *final(master),
        ),
        outcome matches Ok(issued) ==> issued.instruction@ == mint_new_edition_instruction(
            derivation_keys(*ctx),
            ctx.edition_pda.key,
            edition,
        ),
{
    derive_edition(ctx, master, proof, edition)
}

} // verus!
