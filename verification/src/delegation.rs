//! Authority delegation: a mint or a token account passes from the key that
//! holds it to an authority of the program.

use vstd::prelude::*;
use crate::accounts::{AccountInfo, ChangeOwnership, Faucet, SetAuthority};
use crate::authority::{create_program_address, program_address};
use crate::error::{rejected_by, ruled_out, Capability, ErrorCode};
use crate::instruction::{Instruction, InstructionView};
use crate::ledger::{
    build_mint_to, build_set_authority, error_number, mint_to_instruction,
    set_authority_instruction, AuthorityType,
};
use crate::pubkey::{lemma_pubkey_by_bytes, program_id, program_key, token_program_key, Pubkey};
use crate::state::{Mint, TokenAccount};

verus! {

/// What a delegation comes to. A signer that is not the current authority is
/// refused as unauthorized; a ledger program other than the token program
/// rejects the call; otherwise the one instruction that replaces the authority
/// is issued.
pub open spec fn delegation_outcome(
    outcome: Result<InstructionView, ErrorCode>,
    token_program: Pubkey,
    target: Pubkey,
    current: Pubkey,
    signer: AccountInfo,
    pda: Pubkey,
    kind: AuthorityType,
) -> bool {
    if !signer.spec_signs_for(current) {
        outcome == Err::<InstructionView, ErrorCode>(ErrorCode::UnauthorizedSigner)
    } else if token_program != token_program_key() {
        outcome matches Err(e) && rejected_by(e, Capability::SetAuthority)
    } else {
        outcome == Ok::<InstructionView, ErrorCode>(
            set_authority_instruction(target, pda, kind, signer.key),
        )
    }
}

/// The outcome of an operation that issues an instruction, as a mathematical
/// value.
pub open spec fn issued(outcome: Result<Instruction, ErrorCode>) -> Result<
    InstructionView,
    ErrorCode,
> {
    match outcome {
        Ok(ix) => Ok(ix@),
        Err(e) => Err(e),
    }
}

/// Replaces the authority `current` over `target` by `pda`: decides whether
/// `signer` may do so, and builds the instruction for the token ledger.
///
/// Fails with `UnauthorizedSigner` unless `signer` signed and is the current
/// authority. A `token_program` other than the token ledger's is rejected by
/// the ledger, and the failure carries the ledger's number. There is no way
/// back: once the instruction is carried out, only the program that derives
/// `pda` can act for `target`.
pub fn delegate_authority(
    token_program: &Pubkey,
    target: &Pubkey,
    current: &Pubkey,
    signer: &AccountInfo,
    pda: &Pubkey,
    kind: AuthorityType,
) -> (outcome: Result<Instruction, ErrorCode>)
    ensures
        delegation_outcome(issued(outcome), *token_program, *target, *current, *signer, *pda, kind),
{
    if !signer.signs_for(current) {
        return Err(ErrorCode::UnauthorizedSigner);
    }
    match build_set_authority(token_program, target, pda, kind, &signer.key) {
        Ok(ix) => Ok(ix),
        Err(error) => Err(
            ErrorCode::CapabilityFailure {
                call: Capability::SetAuthority,
                code: Some(error_number(error)),
            },
        ),
    }
}

/// Hands the right to mint tokens of a mint to the program's authority.
///
/// On success the mint's authority is `ctx.pda`, and nothing else of the mint
/// changes. On failure the mint is as it was.
pub fn set_authority(ctx: &SetAuthority, mint: &mut Mint) -> (outcome: Result<Instruction, ErrorCode>)
    ensures
        delegation_outcome(
            issued(outcome),
            ctx.token_program.key,
            ctx.mint.key,
            old(mint).mint_authority,
            ctx.signer,
            ctx.pda.key,
            AuthorityType::MintTokens,
        ),
        outcome is Ok ==> *final(mint) == (Mint { mint_authority: ctx.pda.key, ..*old(mint) }),
        outcome is Err ==> *final(mint) == *old(mint),
{
    let ix = delegate_authority(
        &ctx.token_program.key,
        &ctx.mint.key,
        &mint.mint_authority,
        &ctx.signer,
        &ctx.pda.key,
        AuthorityType::MintTokens,
    )?;
    mint.mint_authority = ctx.pda.key;
    Ok(ix)
}

/// Hands the token account that holds the master edition's token to the
/// program's authority.
///
/// On success the account's owner is `ctx.pda`, and nothing else of the
/// account changes. On failure the account is as it was.
pub fn change_ownership(ctx: &ChangeOwnership, account: &mut TokenAccount) -> (outcome: Result<
    Instruction,
    ErrorCode,
>)
    ensures
        delegation_outcome(
            issued(outcome),
            ctx.token_program.key,
            ctx.master_edition_account.key,
            old(account).owner,
            ctx.signer,
            ctx.pda.key,
            AuthorityType::AccountOwner,
        ),
        outcome is Ok ==> *final(account) == (TokenAccount { owner: ctx.pda.key, ..*old(account) }),
        outcome is Err ==> *final(account) == *old(account),
{
    let ix = delegate_authority(
        &ctx.token_program.key,
        &ctx.master_edition_account.key,
        &account.owner,
        &ctx.signer,
        &ctx.pda.key,
        AuthorityType::AccountOwner,
    )?;
    account.owner = ctx.pda.key;
    Ok(ix)
}

/// The seed from which the program derives its authority.
pub const PDA_SEED: [u8; 8] = [99, 104, 97, 114, 109, 112, 100, 97];

/// The amount that one call of `faucet` mints: one hundred tokens of a mint
/// with six decimals.
pub const FAUCET_AMOUNT: u64 = 100_000_000;

/// An instruction that the program signs as its derived authority, with the
/// seeds that reproduce the authority's address.
#[derive(Debug, PartialEq, Eq)]
pub struct SignedInstruction {
    pub instruction: Instruction,
    pub seeds: Vec<Vec<u8>>,
}

/// The seeds are the program's seed and the one byte of the bump.
pub open spec fn seeds_of(seeds: Seq<Vec<u8>>, bump: u8) -> bool {
    &&& seeds.len() == 2
    &&& seeds[0]@ == PDA_SEED@
    &&& seeds[1]@ == seq![bump]
}

/// Why the faucet refuses before the ledger is asked, if it does. `derives`
/// says whether the seed and the bump give the address of `ctx.pda`.
pub open spec fn faucet_refusal(
    ctx: Faucet,
    mint: Mint,
    account: TokenAccount,
    derives: bool,
) -> Option<ErrorCode> {
    if !ctx.signer.is_signer || mint.mint_authority != ctx.pda.key || !derives {
        Some(ErrorCode::UnauthorizedSigner)
    } else if account.mint != ctx.mint.key || mint.supply + FAUCET_AMOUNT > u64::MAX
        || account.amount + FAUCET_AMOUNT > u64::MAX {
        Some(ruled_out(Capability::MintTo))
    } else {
        None
    }
}

/// What a call of the faucet comes to, with the mint and the account before
/// and after it.
pub open spec fn faucet_outcome(
    outcome: Result<SignedInstruction, ErrorCode>,
    ctx: Faucet,
    bump: u8,
    derives: bool,
    before: (Mint, TokenAccount),
    after: (Mint, TokenAccount),
) -> bool {
    match outcome {
        Ok(signed) => {
            &&& faucet_refusal(ctx, before.0, before.1, derives) is None
            &&& ctx.token_program.key == token_program_key()
            &&& signed.instruction@ == mint_to_instruction(
                ctx.mint.key,
                ctx.user_account.key,
                ctx.pda.key,
                FAUCET_AMOUNT,
            )
            &&& seeds_of(signed.seeds@, bump)
            &&& after.0 == (Mint { supply: (before.0.supply + FAUCET_AMOUNT) as u64, ..before.0 })
            &&& after.1 == (TokenAccount {
                amount: (before.1.amount + FAUCET_AMOUNT) as u64,
                ..before.1
            })
        },
        Err(e) => {
            &&& after == before
            &&& match faucet_refusal(ctx, before.0, before.1, derives) {
                Some(refusal) => e == refusal,
                None => ctx.token_program.key != token_program_key() && rejected_by(
                    e,
                    Capability::MintTo,
                ),
            }
        },
    }
}

/// Mints `FAUCET_AMOUNT` units of the mint to `account` under the program's
/// authority, given the address `derived` that the seed and `bump` give.
///
/// Fails with `UnauthorizedSigner` unless the requester signed, `ctx.pda` is
/// the mint's authority and `derived` is its address. An account of another
/// mint, or an amount that the supply or the balance cannot take, is ruled out
/// as a failure of the ledger. On failure the mint and the account are as they
/// were.
pub fn faucet_under(
    ctx: &Faucet,
    mint: &mut Mint,
    account: &mut TokenAccount,
    bump: u8,
    derived: Option<Pubkey>,
) -> (outcome: Result<SignedInstruction, ErrorCode>)
    ensures
        faucet_outcome(
            outcome,
            *ctx,
            bump,
            derived == Some(ctx.pda.key),
            (*old(mint), *old(account)),
            (*final(mint), *final(account)),
        ),
{
    let derives = match derived {
        Some(address) => address.same(&ctx.pda.key),
        None => false,
    };
    if !ctx.signer.is_signer || !mint.mint_authority.same(&ctx.pda.key) || !derives {
        return Err(ErrorCode::UnauthorizedSigner);
    }
    if !account.mint.same(&ctx.mint.key) || mint.supply > u64::MAX - FAUCET_AMOUNT || account.amount
        > u64::MAX - FAUCET_AMOUNT {
        return Err(ErrorCode::CapabilityFailure { call: Capability::MintTo, code: None });
    }
    let built = build_mint_to(
        &ctx.token_program.key,
        &ctx.mint.key,
        &ctx.user_account.key,
        &ctx.pda.key,
        FAUCET_AMOUNT,
    );
    match built {
        Ok(instruction) => {
            let seeds = vec![vec![99u8, 104, 97, 114, 109, 112, 100, 97], vec![bump]];
            assert(seeds@[0]@ =~= PDA_SEED@);
            assert(seeds@[1]@ =~= seq![bump]);
            mint.supply = mint.supply + FAUCET_AMOUNT;
            account.amount = account.amount + FAUCET_AMOUNT;
            Ok(SignedInstruction { instruction, seeds })
        },
        Err(error) => Err(
            ErrorCode::CapabilityFailure { call: Capability::MintTo, code: Some(error_number(error)) },
        ),
    }
}

/// Mints `FAUCET_AMOUNT` units of the mint to `account` under the program's
/// authority, which signs by the seed and `bump`.
///
/// Fails with `UnauthorizedSigner` unless the requester signed, `ctx.pda` is
/// the mint's authority and the seed and `bump` reproduce its address.
pub fn faucet(ctx: &Faucet, mint: &mut Mint, account: &mut TokenAccount, bump: u8) -> (outcome: Result<
    SignedInstruction,
    ErrorCode,
>)
    ensures
        faucet_outcome(
            outcome,
            *ctx,
            bump,
            program_address(PDA_SEED@, bump, program_key()@) == Some(ctx.pda.key@),
            (*old(mint), *old(account)),
            (*final(mint), *final(account)),
        ),
{
    let seed = PDA_SEED;
    let derived = create_program_address(seed.as_slice(), bump, &program_id());
    proof {
        if let Some(address) = derived {
            lemma_pubkey_by_bytes(address, ctx.pda.key);
        }
    }
    faucet_under(ctx, mint, account, bump, derived)
}

} // verus!
