use charm::accounts::{AccountInfo, BaseAccount, Initialize};
use charm::error::ErrorCode;
use charm::pubkey::Pubkey;
use charm::store::initialize;

fn accounts(is_signer: bool) -> Initialize {
    Initialize {
        base_account: BaseAccount { data: String::new(), data_list: vec![] },
        user: AccountInfo { key: Pubkey::new_from_array([1; 32]), is_signer },
        system_program: AccountInfo { key: Pubkey::new_from_array([0; 32]), is_signer: false },
    }
}

#[test]
fn initialize_stores_the_text_and_a_copy() {
    let mut ctx = accounts(true);
    assert_eq!(initialize(&mut ctx, String::from("first")), Ok(()));
    assert_eq!(ctx.base_account.data, "first");
    assert_eq!(ctx.base_account.data_list, vec![String::from("first")]);
    assert_eq!(initialize(&mut ctx, String::from("second")), Ok(()));
    assert_eq!(ctx.base_account.data, "second");
    assert_eq!(ctx.base_account.data_list, vec![String::from("first"), String::from("second")]);
}

#[test]
fn initialize_needs_the_signature() {
    let mut ctx = accounts(false);
    assert_eq!(initialize(&mut ctx, String::from("first")), Err(ErrorCode::UnauthorizedSigner));
    assert_eq!(ctx.base_account, BaseAccount { data: String::new(), data_list: vec![] });
}
