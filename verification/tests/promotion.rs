use charm::accounts::{AccountInfo, Edition};
use charm::error::ErrorCode;
use charm::instruction::{AccountMeta, Instruction};
use charm::promotion::{edition, promote_to_master, EDITION_CAP};
use charm::pubkey::{rent_sysvar_id, system_program_id, token_program_id, Pubkey};
use charm::state::{Asset, Creator, MasterEdition, Metadata, Mint, Stage};

fn key(n: u8) -> Pubkey {
    Pubkey::new_from_array([n; 32])
}

fn info(k: Pubkey, is_signer: bool) -> AccountInfo {
    AccountInfo { key: k, is_signer }
}

fn meta(k: Pubkey, is_signer: bool, is_writable: bool) -> AccountMeta {
    AccountMeta { pubkey: k, is_signer, is_writable }
}

fn ctx() -> Edition {
    Edition {
        payer: info(key(1), true),
        mint: info(key(2), false),
        mint_authority: info(key(3), true),
        update_authority: info(key(4), true),
        metadata_account: info(key(5), false),
        master_edition_account: info(key(6), false),
        metadata_program: info(key(7), false),
        token_program: info(token_program_id(), false),
        system_program: info(system_program_id(), false),
        rent_program: info(rent_sysvar_id(), false),
    }
}

fn record() -> Metadata {
    Metadata {
        mint: key(2),
        update_authority: key(4),
        name: String::from("ExampleName000000000"),
        symbol: String::from("SYM1"),
        uri: String::from("https://example/uri"),
        creators: vec![Creator { address: key(1), verified: true, share: 100 }],
        seller_fee_basis_points: 20,
        is_mutable: true,
    }
}

fn described() -> Asset {
    Asset {
        mint: Mint { supply: 1, decimals: 0, mint_authority: key(3) },
        metadata: Some(record()),
        master: None,
    }
}

fn accounts() -> Vec<AccountMeta> {
    vec![
        meta(key(6), false, true),
        meta(key(2), false, true),
        meta(key(4), true, false),
        meta(key(3), true, false),
        meta(key(1), true, false),
        meta(key(5), false, false),
        meta(token_program_id(), false, false),
        meta(system_program_id(), false, false),
        meta(rent_sysvar_id(), false, false),
    ]
}

#[test]
fn edition_promotes_with_a_cap_of_one() {
    let mut asset = described();
    let issued = edition(&ctx(), &mut asset).unwrap();
    let expected =
        Instruction { program_id: key(7), accounts: accounts(), data: vec![10, 1, 1, 0, 0, 0, 0, 0, 0, 0] };
    assert_eq!(issued, expected);
    assert_eq!(EDITION_CAP, 1);
    assert_eq!(asset.master, Some(MasterEdition { max_supply: Some(1), current_supply: 0 }));
    assert_eq!(asset.metadata, Some(record()));
    assert_eq!(asset.stage(), Stage::Promoted);
}

#[test]
fn promote_to_master_takes_any_cap_or_none() {
    let mut asset = described();
    let issued = promote_to_master(&ctx(), &mut asset, None).unwrap();
    assert_eq!(issued, Instruction { program_id: key(7), accounts: accounts(), data: vec![10, 0] });
    assert_eq!(asset.master, Some(MasterEdition { max_supply: None, current_supply: 0 }));
    let mut capped = described();
    let issued = promote_to_master(&ctx(), &mut capped, Some(0x0102030405060708)).unwrap();
    assert_eq!(issued.data, vec![10, 1, 8, 7, 6, 5, 4, 3, 2, 1]);
    assert_eq!(
        capped.master,
        Some(MasterEdition { max_supply: Some(0x0102030405060708), current_supply: 0 })
    );
}

#[test]
fn promotion_without_metadata_fails_and_leaves_no_master() {
    let mut asset = Asset::new(Mint { supply: 1, decimals: 0, mint_authority: key(3) });
    assert_eq!(edition(&ctx(), &mut asset), Err(ErrorCode::MetadataMissing));
    assert_eq!(asset.master, None);
    assert_eq!(asset.metadata, None);
    assert_eq!(asset.stage(), Stage::Created);
    let mut unsigned = ctx();
    unsigned.payer.is_signer = false;
    assert_eq!(promote_to_master(&unsigned, &mut asset, None), Err(ErrorCode::MetadataMissing));
}

#[test]
fn promotion_happens_once() {
    let mut asset = described();
    assert!(edition(&ctx(), &mut asset).is_ok());
    assert_eq!(promote_to_master(&ctx(), &mut asset, Some(9)), Err(ErrorCode::AlreadyMaster));
    assert_eq!(asset.master, Some(MasterEdition { max_supply: Some(1), current_supply: 0 }));
    assert_eq!(asset.stage(), Stage::Promoted);
}

#[test]
fn promotion_needs_the_signatures() {
    let mut asset = described();
    let mut no_payer = ctx();
    no_payer.payer.is_signer = false;
    assert_eq!(edition(&no_payer, &mut asset), Err(ErrorCode::UnauthorizedSigner));
    let mut other_authority = ctx();
    other_authority.mint_authority.key = key(9);
    assert_eq!(edition(&other_authority, &mut asset), Err(ErrorCode::UnauthorizedSigner));
    let mut no_authority = ctx();
    no_authority.mint_authority.is_signer = false;
    assert_eq!(edition(&no_authority, &mut asset), Err(ErrorCode::UnauthorizedSigner));
    let mut other_update = ctx();
    other_update.update_authority.key = key(9);
    assert_eq!(edition(&other_update, &mut asset), Err(ErrorCode::UnauthorizedSigner));
    let mut no_update = ctx();
    no_update.update_authority.is_signer = false;
    assert_eq!(edition(&no_update, &mut asset), Err(ErrorCode::UnauthorizedSigner));
    assert_eq!(asset, described());
}
