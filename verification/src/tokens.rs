//! Token accounts: opening the account that the ledger associates with an
//! owner and a mint, and moving tokens between accounts.

use vstd::prelude::*;
use crate::accounts::{CreateAssociated, ProxyTransfer};
use crate::error::{ruled_out, Capability, ErrorCode};
use crate::instruction::{check_names_account, names_account, Instruction};
use crate::ledger::{
    associated_token_address, build_create_account, build_transfer, create_account_instruction,
    error_number, transfer_instruction,
};
use crate::pubkey::{lemma_pubkey_by_bytes, token_program_id};
use crate::state::TokenAccount;

verus! {

/// The token account that the instruction opens: of the mint, owned by the
/// signer, empty.
pub open spec fn opened_account(ctx: CreateAssociated) -> TokenAccount {
    TokenAccount { mint: ctx.mint.key, owner: ctx.signer.key, amount: 0 }
}

/// Accepts the instruction that opens the signer's associated account if the
/// account that it opens is the one presented as `ctx.user_account`, and says
/// what that account holds once opened. An instruction for another account is
/// ruled out as a failure of the ledger, which would not find its account.
pub fn open_account(ctx: &CreateAssociated, ix: Instruction) -> (outcome: Result<
    (Instruction, TokenAccount),
    ErrorCode,
>)
    ensures
        match outcome {
            Ok((issued, account)) => {
                &&& names_account(ix, 1, ctx.user_account.key)
                &&& issued == ix
                &&& account == opened_account(*ctx)
            },
            Err(e) => !names_account(ix, 1, ctx.user_account.key) && e == ruled_out(
                Capability::CreateAccount,
            ),
        },
{
    if !check_names_account(&ix, 1, &ctx.user_account.key) {
        return Err(ErrorCode::CapabilityFailure { call: Capability::CreateAccount, code: None });
    }
    Ok((ix, TokenAccount { mint: ctx.mint.key, owner: ctx.signer.key, amount: 0 }))
}

/// Opens the token account that the ledger associates with the signer and the
/// mint; the signer pays for it.
///
/// Fails with `UnauthorizedSigner` unless the signer signed. The account
/// presented as `ctx.user_account` must be the associated one: another is
/// ruled out as a failure of the ledger.
pub fn create_associated_account(ctx: &CreateAssociated) -> (outcome: Result<
    (Instruction, TokenAccount),
    ErrorCode,
>)
    ensures
        match outcome {
            Ok((issued, account)) => {
                &&& ctx.signer.is_signer
                &&& associated_token_address(ctx.signer.key@, ctx.mint.key@)
                    == ctx.user_account.key@
                &&& issued@ == create_account_instruction(
                    ctx.signer.key,
                    ctx.user_account.key,
                    ctx.signer.key,
                    ctx.mint.key,
                )
                &&& account == opened_account(*ctx)
            },
            Err(e) => if !ctx.signer.is_signer {
                e == ErrorCode::UnauthorizedSigner
            } else {
                &&& associated_token_address(ctx.signer.key@, ctx.mint.key@)
                    != ctx.user_account.key@
                &&& e == ruled_out(Capability::CreateAccount)
            },
        },
{
    if !ctx.signer.is_signer {
        return Err(ErrorCode::UnauthorizedSigner);
    }
    let ix = build_create_account(&ctx.signer.key, &ctx.signer.key, &ctx.mint.key);
    proof {
        lemma_pubkey_by_bytes(ix.accounts@[1].pubkey, ctx.user_account.key);
    }
    open_account(ctx, ix)
}

/// Why a transfer is refused before the ledger is asked, if it is.
pub open spec fn transfer_refusal(
    ctx: ProxyTransfer,
    from: TokenAccount,
    to: TokenAccount,
    amount: u64,
) -> Option<ErrorCode> {
    if !ctx.authority.spec_signs_for(from.owner) {
        Some(ErrorCode::UnauthorizedSigner)
    } else if amount > from.amount {
        Some(ErrorCode::InsufficientBalance)
    } else if from.mint != to.mint || to.amount + amount > u64::MAX {
        Some(ruled_out(Capability::Transfer))
    } else {
        None
    }
}

/// Moves `amount` tokens from one account to another of the same mint.
///
/// Fails with `UnauthorizedSigner` unless the authority signed and owns the
/// source, and with `InsufficientBalance` when the source holds less than
/// `amount`. Accounts of two mints, or a balance that cannot take the amount,
/// are ruled out as a failure of the ledger. On success the amount has left
/// the source and reached the destination; on failure both are as they were.
pub fn proxy_transfer(
    ctx: &ProxyTransfer,
    from: &mut TokenAccount,
    to: &mut TokenAccount,
    amount: u64,
) -> (outcome: Result<Instruction, ErrorCode>)
    ensures
        match outcome {
            Ok(issued) => {
                &&& transfer_refusal(*ctx, *old(from), *old(to), amount) is None
                &&& issued@ == transfer_instruction(
                    ctx.from.key,
                    ctx.to.key,
                    ctx.authority.key,
                    amount,
                )
                &&& *final(from) == (TokenAccount {
                    amount: (old(from).amount - amount) as u64,
                    ..*old(from)
                })
                &&& *final(to) == (TokenAccount {
                    amount: (old(to).amount + amount) as u64,
                    ..*old(to)
                })
            },
            Err(e) => {
                &&& transfer_refusal(*ctx, *old(from), *old(to), amount) == Some(e)
                &&& *final(from) == *old(from)
                &&& *final(to) == *old(to)
            },
        },
{
    if !ctx.authority.signs_for(&from.owner) {
        return Err(ErrorCode::UnauthorizedSigner);
    }
    if amount > from.amount {
        return Err(ErrorCode::InsufficientBalance);
    }
    if !from.mint.same(&to.mint) || to.amount > u64::MAX - amount {
        return Err(ErrorCode::CapabilityFailure { call: Capability::Transfer, code: None });
    }
    let built = build_transfer(
        &token_program_id(),
        &ctx.from.key,
        &ctx.to.key,
        &ctx.authority.key,
        amount,
    );
    match built {
        Ok(issued) => {
            from.amount = from.amount - amount;
            to.amount = to.amount + amount;
            Ok(issued)
        },
        Err(error) => {
            Err(
                ErrorCode::CapabilityFailure {
                    call: Capability::Transfer,
                    code: Some(error_number(error)),
                },
            )
        },
    }
}

} // verus!
