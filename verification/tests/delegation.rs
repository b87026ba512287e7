use anchor_lang::solana_program::pubkey::Pubkey as Key;
use charm::accounts::{AccountInfo, ChangeOwnership, Faucet, SetAuthority};
use charm::delegation::{
    change_ownership, delegate_authority, faucet, faucet_under, set_authority, FAUCET_AMOUNT,
    PDA_SEED,
};
use charm::error::{Capability, ErrorCode};
use charm::instruction::{AccountMeta, Instruction};
use charm::ledger::AuthorityType;
use charm::pubkey::{program_id, token_program_id, Pubkey};
use charm::state::{Mint, TokenAccount};

fn key(n: u8) -> Pubkey {
    Pubkey::new_from_array([n; 32])
}

fn info(k: Pubkey, is_signer: bool) -> AccountInfo {
    AccountInfo { key: k, is_signer }
}

fn meta(k: Pubkey, is_signer: bool, is_writable: bool) -> AccountMeta {
    AccountMeta { pubkey: k, is_signer, is_writable }
}

fn set_authority_ctx() -> SetAuthority {
    SetAuthority {
        signer: info(key(1), true),
        mint: info(key(2), false),
        pda: info(key(3), false),
        token_program: info(token_program_id(), false),
    }
}

fn pda_and_bump() -> (Pubkey, u8) {
    let program = Key::new_from_array(program_id().to_bytes());
    let (address, bump) = Key::find_program_address(&[b"charmpda"], &program);
    (Pubkey::new_from_array(address.to_bytes()), bump)
}

fn faucet_ctx(pda: Pubkey) -> Faucet {
    Faucet {
        signer: info(key(1), true),
        mint: info(key(2), false),
        user_account: info(key(4), false),
        pda: info(pda, false),
        token_program: info(token_program_id(), false),
    }
}

#[test]
fn set_authority_issues_the_ledger_instruction() {
    let ctx = set_authority_ctx();
    let mut mint = Mint { supply: 7, decimals: 6, mint_authority: key(1) };
    let issued = set_authority(&ctx, &mut mint).unwrap();
    let mut data = vec![6u8, 0, 1];
    data.extend_from_slice(&[3u8; 32]);
    let expected = Instruction {
        program_id: token_program_id(),
        accounts: vec![
            meta(key(2), false, true),
            meta(key(1), false, false),
            meta(key(1), true, false),
        ],
        data,
    };
    assert_eq!(issued, expected);
    assert_eq!(mint, Mint { supply: 7, decimals: 6, mint_authority: key(3) });
}

#[test]
fn set_authority_refuses_a_key_that_is_not_the_authority() {
    let ctx = set_authority_ctx();
    let mut mint = Mint { supply: 0, decimals: 6, mint_authority: key(9) };
    assert_eq!(set_authority(&ctx, &mut mint), Err(ErrorCode::UnauthorizedSigner));
    assert_eq!(mint.mint_authority, key(9));
}

#[test]
fn set_authority_refuses_an_authority_that_did_not_sign() {
    let mut ctx = set_authority_ctx();
    ctx.signer.is_signer = false;
    let mut mint = Mint { supply: 0, decimals: 6, mint_authority: key(1) };
    assert_eq!(set_authority(&ctx, &mut mint), Err(ErrorCode::UnauthorizedSigner));
    assert_eq!(mint.mint_authority, key(1));
}

#[test]
fn set_authority_reports_what_the_ledger_says_of_another_program() {
    let mut ctx = set_authority_ctx();
    ctx.token_program.key = key(8);
    let mut mint = Mint { supply: 0, decimals: 6, mint_authority: key(1) };
    let incorrect_program_id = 7u64 << 32;
    assert_eq!(
        set_authority(&ctx, &mut mint),
        Err(ErrorCode::CapabilityFailure {
            call: Capability::SetAuthority,
            code: Some(incorrect_program_id)
        })
    );
    assert_eq!(mint.mint_authority, key(1));
}

#[test]
fn old_authority_is_refused_after_delegation() {
    let ctx = set_authority_ctx();
    let mut mint = Mint { supply: 0, decimals: 6, mint_authority: key(1) };
    assert!(set_authority(&ctx, &mut mint).is_ok());
    let mut again = set_authority_ctx();
    again.pda.key = key(5);
    assert_eq!(set_authority(&again, &mut mint), Err(ErrorCode::UnauthorizedSigner));
    assert_eq!(mint.mint_authority, key(3));
    let as_pda = faucet_ctx(key(1));
    let mut account = TokenAccount { mint: key(2), owner: key(1), amount: 0 };
    assert_eq!(
        faucet_under(&as_pda, &mut mint, &mut account, 255, Some(key(1))),
        Err(ErrorCode::UnauthorizedSigner)
    );
    assert_eq!(mint.supply, 0);
}

#[test]
fn delegate_authority_names_the_kind() {
    let signer = info(key(1), true);
    let minting = delegate_authority(
        &token_program_id(),
        &key(2),
        &key(1),
        &signer,
        &key(3),
        AuthorityType::MintTokens,
    )
    .unwrap();
    let owning = delegate_authority(
        &token_program_id(),
        &key(2),
        &key(1),
        &signer,
        &key(3),
        AuthorityType::AccountOwner,
    )
    .unwrap();
    assert_eq!(minting.data[1], 0);
    assert_eq!(owning.data[1], 2);
    assert_eq!(minting.accounts, owning.accounts);
}

#[test]
fn change_ownership_hands_the_account_to_the_authority() {
    let ctx = ChangeOwnership {
        signer: info(key(1), true),
        master_edition_account: info(key(6), false),
        pda: info(key(3), false),
        token_program: info(token_program_id(), false),
    };
    let mut account = TokenAccount { mint: key(2), owner: key(1), amount: 1 };
    let issued = change_ownership(&ctx, &mut account).unwrap();
    let mut data = vec![6u8, 2, 1];
    data.extend_from_slice(&[3u8; 32]);
    let expected = Instruction {
        program_id: token_program_id(),
        accounts: vec![
            meta(key(6), false, true),
            meta(key(1), false, false),
            meta(key(1), true, false),
        ],
        data,
    };
    assert_eq!(issued, expected);
    assert_eq!(account, TokenAccount { mint: key(2), owner: key(3), amount: 1 });
    assert_eq!(change_ownership(&ctx, &mut account), Err(ErrorCode::UnauthorizedSigner));
    assert_eq!(account.owner, key(3));
}

#[test]
fn faucet_mints_under_the_derived_authority() {
    let (pda, bump) = pda_and_bump();
    let ctx = faucet_ctx(pda);
    let mut mint = Mint { supply: 5, decimals: 6, mint_authority: pda };
    let mut account = TokenAccount { mint: key(2), owner: key(1), amount: 10 };
    let signed = faucet(&ctx, &mut mint, &mut account, bump).unwrap();
    let mut data = vec![7u8];
    data.extend_from_slice(&100_000_000u64.to_le_bytes());
    let expected = Instruction {
        program_id: token_program_id(),
        accounts: vec![
            meta(key(2), false, true),
            meta(key(4), false, true),
            meta(pda, false, false),
            meta(pda, true, false),
        ],
        data,
    };
    assert_eq!(signed.instruction, expected);
    assert_eq!(signed.seeds, vec![b"charmpda".to_vec(), vec![bump]]);
    assert_eq!(FAUCET_AMOUNT, 100 * 100_00_00);
    assert_eq!(PDA_SEED, *b"charmpda");
    assert_eq!(mint.supply, 100_000_005);
    assert_eq!(account.amount, 100_000_010);
}

#[test]
fn faucet_refuses_a_bump_that_gives_another_address() {
    let (pda, bump) = pda_and_bump();
    let ctx = faucet_ctx(pda);
    let mut mint = Mint { supply: 5, decimals: 6, mint_authority: pda };
    let mut account = TokenAccount { mint: key(2), owner: key(1), amount: 10 };
    let other = bump.wrapping_sub(1);
    assert_eq!(faucet(&ctx, &mut mint, &mut account, other), Err(ErrorCode::UnauthorizedSigner));
    assert_eq!(mint.supply, 5);
    assert_eq!(account.amount, 10);
}

#[test]
fn faucet_refuses_an_authority_that_the_mint_does_not_have() {
    let (pda, bump) = pda_and_bump();
    let ctx = faucet_ctx(pda);
    let mut mint = Mint { supply: 5, decimals: 6, mint_authority: key(1) };
    let mut account = TokenAccount { mint: key(2), owner: key(1), amount: 10 };
    assert_eq!(faucet(&ctx, &mut mint, &mut account, bump), Err(ErrorCode::UnauthorizedSigner));
    let mut unsigned = faucet_ctx(pda);
    unsigned.signer.is_signer = false;
    mint.mint_authority = pda;
    assert_eq!(
        faucet(&unsigned, &mut mint, &mut account, bump),
        Err(ErrorCode::UnauthorizedSigner)
    );
}

#[test]
fn faucet_rules_out_what_the_ledger_cannot_take() {
    let ctx = faucet_ctx(key(3));
    let ruled_out = Err(ErrorCode::CapabilityFailure { call: Capability::MintTo, code: None });
    let mut mint = Mint { supply: u64::MAX - FAUCET_AMOUNT + 1, decimals: 6, mint_authority: key(3) };
    let mut account = TokenAccount { mint: key(2), owner: key(1), amount: 0 };
    assert_eq!(faucet_under(&ctx, &mut mint, &mut account, 1, Some(key(3))), ruled_out);
    mint.supply = u64::MAX - FAUCET_AMOUNT;
    account.amount = u64::MAX - FAUCET_AMOUNT + 1;
    assert_eq!(faucet_under(&ctx, &mut mint, &mut account, 1, Some(key(3))), ruled_out);
    account.amount = 0;
    account.mint = key(7);
    assert_eq!(faucet_under(&ctx, &mut mint, &mut account, 1, Some(key(3))), ruled_out);
    account.mint = key(2);
    assert!(faucet_under(&ctx, &mut mint, &mut account, 1, Some(key(3))).is_ok());
    assert_eq!(mint.supply, u64::MAX);
    assert_eq!(account.amount, FAUCET_AMOUNT);
    assert_eq!(faucet_under(&ctx, &mut mint, &mut account, 1, None), Err(ErrorCode::UnauthorizedSigner));
}

#[test]
fn faucet_reports_what_the_ledger_says_of_another_program() {
    let mut ctx = faucet_ctx(key(3));
    ctx.token_program.key = key(8);
    let mut mint = Mint { supply: 0, decimals: 6, mint_authority: key(3) };
    let mut account = TokenAccount { mint: key(2), owner: key(1), amount: 0 };
    assert_eq!(
        faucet_under(&ctx, &mut mint, &mut account, 1, Some(key(3))),
        Err(ErrorCode::CapabilityFailure { call: Capability::MintTo, code: Some(7u64 << 32) })
    );
    assert_eq!(mint.supply, 0);
    assert_eq!(account.amount, 0);
}
