use anchor_lang::solana_program::pubkey::Pubkey as Key;
use charm::accounts::{AccountInfo, Buy};
use charm::derivation::{buy, derive_edition, derive_edition_with, Issued};
use charm::error::{Capability, ErrorCode};
use charm::instruction::{AccountMeta, Instruction};
use charm::pubkey::{rent_sysvar_id, system_program_id, token_program_id, Pubkey};
use charm::state::{EditionRecord, MasterEdition, Mint, TokenAccount};

fn key(n: u8) -> Pubkey {
    Pubkey::new_from_array([n; 32])
}

fn info(k: Pubkey, is_signer: bool) -> AccountInfo {
    AccountInfo { key: k, is_signer }
}

fn meta(k: Pubkey, is_signer: bool, is_writable: bool) -> AccountMeta {
    AccountMeta { pubkey: k, is_signer, is_writable }
}

fn marker(edition: u64) -> Pubkey {
    let program = Key::new_from_array([20; 32]);
    let mint = Key::new_from_array([31; 32]);
    let number = (edition / 248).to_string();
    let seeds: [&[u8]; 5] =
        [b"metadata", program.as_ref(), mint.as_ref(), b"edition", number.as_bytes()];
    let (address, _) = Key::find_program_address(&seeds, &program);
    Pubkey::new_from_array(address.to_bytes())
}

fn ctx(edition: u64) -> Buy {
    Buy {
        payer: info(key(26), true),
        metadata_program: info(key(20), false),
        new_metadata_account: info(key(21), false),
        new_edition_account: info(key(22), false),
        master_edition_account: info(key(23), false),
        new_mint_account: info(key(24), false),
        new_mint_authority: info(key(25), true),
        token_account_owner: info(key(27), true),
        token_account: info(key(28), false),
        new_metadata_update_authority: info(key(29), false),
        metadata: info(key(30), false),
        metadata_mint: info(key(31), false),
        system_program: info(system_program_id(), false),
        rent_program: info(rent_sysvar_id(), false),
        edition_pda: info(marker(edition), false),
        token_program: info(token_program_id(), false),
    }
}

fn ticket() -> TokenAccount {
    TokenAccount { mint: key(31), owner: key(27), amount: 1 }
}

fn handmade(marker: Pubkey) -> Instruction {
    Instruction { program_id: key(20), accounts: vec![meta(marker, false, true); 5], data: vec![11] }
}

#[test]
fn derive_edition_issues_the_registry_instruction() {
    let mut master = MasterEdition { max_supply: Some(10), current_supply: 3 };
    let issued = derive_edition(&ctx(500), &mut master, &ticket(), 500).unwrap();
    let mut data = vec![11u8];
    data.extend_from_slice(&500u64.to_le_bytes());
    let expected = Instruction {
        program_id: key(20),
        accounts: vec![
            meta(key(21), false, true),
            meta(key(22), false, true),
            meta(key(23), false, true),
            meta(key(24), false, true),
            meta(marker(500), false, true),
            meta(key(25), true, false),
            meta(key(26), true, true),
            meta(key(27), true, false),
            meta(key(28), false, false),
            meta(key(29), false, false),
            meta(key(30), false, false),
            meta(token_program_id(), false, false),
            meta(system_program_id(), false, false),
            meta(rent_sysvar_id(), false, false),
        ],
        data,
    };
    assert_eq!(
        issued,
        Issued {
            instruction: expected,
            edition: EditionRecord { master: key(23), mint: key(24), edition_number: 500 },
            child: Mint { supply: 1, decimals: 0, mint_authority: key(25) },
            holding: TokenAccount { mint: key(24), owner: key(27), amount: 1 },
        }
    );
    assert_eq!(master, MasterEdition { max_supply: Some(10), current_supply: 4 });
    assert_ne!(marker(500), marker(1));
    assert_eq!(marker(247), marker(1));
}

#[test]
fn cap_of_one_allows_one_edition() {
    let mut master = MasterEdition { max_supply: Some(1), current_supply: 0 };
    assert!(buy(&ctx(1), &mut master, &ticket(), 1, 255).is_ok());
    assert_eq!(master.current_supply, 1);
    assert_eq!(buy(&ctx(2), &mut master, &ticket(), 2, 255), Err(ErrorCode::SupplyExhausted));
    assert_eq!(master.current_supply, 1);
    assert_eq!(master.max_supply, Some(1));
}

#[test]
fn supply_counts_the_editions_in_order() {
    let mut master = MasterEdition { max_supply: None, current_supply: 0 };
    let mut observed = vec![];
    for n in 1..=40u64 {
        let issued = buy(&ctx(n), &mut master, &ticket(), n, 0).unwrap();
        assert_eq!(issued.edition.edition_number, n);
        observed.push(master.current_supply);
    }
    let expected: Vec<u64> = (1..=40).collect();
    assert_eq!(observed, expected);
}

#[test]
fn cap_of_zero_allows_no_edition() {
    let mut master = MasterEdition { max_supply: Some(0), current_supply: 0 };
    assert_eq!(derive_edition(&ctx(1), &mut master, &ticket(), 1), Err(ErrorCode::SupplyExhausted));
    assert_eq!(master.current_supply, 0);
    assert!(master.is_exhausted());
    assert!(!MasterEdition { max_supply: None, current_supply: u64::MAX }.is_exhausted());
    assert!(!MasterEdition { max_supply: Some(2), current_supply: 1 }.is_exhausted());
}

#[test]
fn derive_edition_needs_a_token_of_the_master() {
    let mut master = MasterEdition { max_supply: None, current_supply: 0 };
    let empty = TokenAccount { mint: key(31), owner: key(27), amount: 0 };
    assert_eq!(derive_edition(&ctx(1), &mut master, &empty, 1), Err(ErrorCode::InsufficientProof));
    let foreign = TokenAccount { mint: key(9), owner: key(27), amount: 5 };
    assert_eq!(derive_edition(&ctx(1), &mut master, &foreign, 1), Err(ErrorCode::InsufficientProof));
    assert_eq!(master.current_supply, 0);
    let mut full = MasterEdition { max_supply: Some(3), current_supply: 3 };
    assert_eq!(derive_edition(&ctx(1), &mut full, &empty, 1), Err(ErrorCode::SupplyExhausted));
}

#[test]
fn derive_edition_needs_the_signatures() {
    let mut master = MasterEdition { max_supply: None, current_supply: 0 };
    let mut no_payer = ctx(1);
    no_payer.payer.is_signer = false;
    assert_eq!(derive_edition(&no_payer, &mut master, &ticket(), 1), Err(ErrorCode::UnauthorizedSigner));
    let mut no_authority = ctx(1);
    no_authority.new_mint_authority.is_signer = false;
    assert_eq!(
        derive_edition(&no_authority, &mut master, &ticket(), 1),
        Err(ErrorCode::UnauthorizedSigner)
    );
    let mut no_owner = ctx(1);
    no_owner.token_account_owner.is_signer = false;
    assert_eq!(derive_edition(&no_owner, &mut master, &ticket(), 1), Err(ErrorCode::UnauthorizedSigner));
    let not_the_owner = TokenAccount { mint: key(31), owner: key(9), amount: 1 };
    assert_eq!(
        derive_edition(&ctx(1), &mut master, &not_the_owner, 1),
        Err(ErrorCode::UnauthorizedSigner)
    );
    assert_eq!(master.current_supply, 0);
}

#[test]
fn derive_edition_rules_out_another_marker() {
    let ruled_out = Err(ErrorCode::CapabilityFailure { call: Capability::MintNewEdition, code: None });
    let mut master = MasterEdition { max_supply: None, current_supply: 0 };
    assert_eq!(derive_edition(&ctx(1), &mut master, &ticket(), 248), ruled_out);
    assert_eq!(master.current_supply, 0);
    assert!(derive_edition(&ctx(1), &mut master, &ticket(), 247).is_ok());
    assert_eq!(master.current_supply, 1);
}

#[test]
fn derive_edition_with_goes_by_the_marker_of_the_instruction() {
    let ruled_out = Err(ErrorCode::CapabilityFailure { call: Capability::MintNewEdition, code: None });
    let mut master = MasterEdition { max_supply: None, current_supply: u64::MAX - 1 };
    let mut buyer = ctx(1);
    buyer.edition_pda.key = key(40);
    assert_eq!(derive_edition_with(&buyer, &mut master, &ticket(), 1, handmade(key(41))), ruled_out);
    let issued = derive_edition_with(&buyer, &mut master, &ticket(), 1, handmade(key(40))).unwrap();
    assert_eq!(issued.instruction, handmade(key(40)));
    assert_eq!(master.current_supply, u64::MAX);
    assert_eq!(derive_edition_with(&buyer, &mut master, &ticket(), 1, handmade(key(40))), ruled_out);
    assert_eq!(master.current_supply, u64::MAX);
}

#[test]
fn numbers_given_out_in_order_follow_the_count() {
    let mut master = MasterEdition { max_supply: Some(3), current_supply: 0 };
    let mut numbers = vec![];
    while let Some(number) = master.next_edition_number() {
        let issued = derive_edition(&ctx(number), &mut master, &ticket(), number).unwrap();
        assert_eq!(issued.edition.edition_number, master.current_supply);
        numbers.push(number);
    }
    assert_eq!(numbers, vec![1, 2, 3]);
    assert_eq!(master.next_edition_number(), None);
    let open = MasterEdition { max_supply: None, current_supply: 41 };
    assert_eq!(open.next_edition_number(), Some(42));
    let full = MasterEdition { max_supply: None, current_supply: u64::MAX };
    assert_eq!(full.next_edition_number(), None);
}
