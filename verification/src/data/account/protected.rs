//! What an account shows of itself: all but its credentials.

use crate::data::account::Account;
use crate::data::account::Timestamp;
use crate::database::id::Id;
use vstd::prelude::*;
use vstd::std_specs::convert::FromSpecImpl;

verus! {

/// An account without its password hash, secret and salt.
#[derive(Debug)]
pub struct ProtectedAccount {
    pub id: Id,
    pub username: String,
    pub uuid: Option<String>,
    pub totp: bool,
    pub locked: bool,
    pub created_at: Timestamp,
}

impl From<Account> for ProtectedAccount {
    fn from(value: Account) -> (r: Self) {
        Self {
            id: value.id,
            username: value.username,
            uuid: value.uuid,
            totp: value.totp,
            locked: value.locked,
            created_at: value.created_at,
        }
    }
}

impl FromSpecImpl<Account> for ProtectedAccount {
    open spec fn obeys_from_spec() -> bool {
        true
    }

    open spec fn from_spec(value: Account) -> Self {
        ProtectedAccount {
            id: value.id,
            username: value.username,
            uuid: value.uuid,
            totp: value.totp,
            locked: value.locked,
            created_at: value.created_at,
        }
    }
}

} // verus!
