//! The program's own account: a text and the list of texts stored so far.

use vstd::prelude::*;
use crate::accounts::Initialize;
use crate::error::ErrorCode;

verus! {

/// Stores `data` in the base account as its latest text and appends a copy to
/// its list.
///
/// Fails with `UnauthorizedSigner` unless the user signed; the account is then
/// as it was.
pub fn initialize(accounts: &mut Initialize, data: String) -> (outcome: Result<(), ErrorCode>)
    ensures
        final(accounts).user == old(accounts).user,
        final(accounts).system_program == old(accounts).system_program,
        match outcome {
            Ok(_) => {
                &&& old(accounts).user.is_signer
                &&& final(accounts).base_account.data == data
                &&& final(accounts).base_account.data_list@ == old(
                    accounts,
                ).base_account.data_list@.push(data)
            },
            Err(e) => {
                &&& !old(accounts).user.is_signer
                &&& e == ErrorCode::UnauthorizedSigner
                &&& final(accounts).base_account == old(accounts).base_account
            },
        },
{
    if !accounts.user.is_signer {
        return Err(ErrorCode::UnauthorizedSigner);
    }
    let copy = data.clone();
    accounts.base_account.data = data;
    accounts.base_account.data_list.push(copy);
    Ok(())
}

} // verus!
