//! What an account may see and change of accounts.

pub mod schematic;

use crate::auth::authz::permission::Permission;
use crate::auth::authz::permission::ACCOUNT_PERMISSION_GET;
use crate::auth::authz::permission::permission_of;
use crate::auth::authz::PermissionCheck;
use crate::auth::authz::PermissionCheckView;
use crate::data::account::Account;
use crate::data::account::AccountCommand;
use crate::data::account::AccountCommandView;
use crate::data::account::AccountView;
use crate::database::id::Id;
use crate::error::ApplicationError;
use crate::error::ErrorView;
use crate::text::same_text;
use vstd::prelude::*;

verus! {

/// What a change of username brings.
#[derive(Debug)]
pub struct ChangeUsernameRequest {
    pub username: String,
}

/// `GET /account/:account_id/permissions`, before anything is looked up. An
/// account may see its own permissions: where `account_id` is the
/// requester's identifier as written, nothing is asked. To see another's it
/// needs the permission `account.permission.get`, which has to be checked
/// before the other account is looked at.
pub fn get_permissions(requester: &Account, account_id: &str) -> (check: PermissionCheck)
    ensures
        requester@.id.text() == account_id@ ==> check@ == PermissionCheckView::Granted,
        requester@.id.text() != account_id@ ==> check@ == (PermissionCheckView::Lookup {
            account: requester@.id,
            permission: permission_of(ACCOUNT_PERMISSION_GET@),
        }),
{
    let own = requester.id.to_string();
    if same_text(own.as_str(), account_id) {
        PermissionCheck::Granted
    } else {
        let needed = Permission::new(ACCOUNT_PERMISSION_GET);
        proof {
            reveal_strlit("account.permission.get");
            reveal_strlit("none");
            assert(ACCOUNT_PERMISSION_GET@.len() != "none"@.len());
        }
        requester.has_permission(&needed)
    }
}

/// `PUT /account/:account_id`: gives the account the name that the request
/// brings, here and, by the command, in storage. An account can rename only
/// itself: for any other identifier the request is refused and nothing
/// changes.
pub fn update_account_username(account: &mut Account, id: &Id, data: ChangeUsernameRequest) -> (r:
    Result<AccountCommand, ApplicationError>)
    ensures
        id@ == old(account)@.id ==> {
            &&& r is Ok
            &&& final(account)@ == (AccountView { username: data.username@, ..old(account)@ })
            &&& r->Ok_0@ == (AccountCommandView::SetUsername {
                account: old(account)@.id,
                username: data.username@,
            })
        },
        id@ != old(account)@.id ==> r is Err && r->Err_0@ == ErrorView::BadRequest(
            "not implemented yet"@,
        ) && final(account)@ == old(account)@,
{
    if *id == account.id {
        account.username = data.username;
        Ok(
            AccountCommand::SetUsername {
                account: account.id.clone(),
                username: account.username.clone(),
            },
        )
    } else {
        Err(ApplicationError::BadRequest("not implemented yet".to_owned()))
    }
}

} // verus!
