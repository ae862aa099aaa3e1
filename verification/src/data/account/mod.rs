//! Accounts: who may log in, and with what.

pub mod create;
pub mod protected;

use crate::database::id::names_record_of;
use crate::database::id::written_key;
use crate::database::id::Id;
use crate::database::id::IdView;
use crate::error::ApplicationError;
use crate::error::ErrorView;
use vstd::prelude::*;

verus! {

/// A moment, as seconds since the epoch and the nanoseconds into that second.
#[derive(Clone, Copy, Debug, PartialEq, Eq, Structural)]
pub struct Timestamp {
    pub secs: i64,
    pub nanos: u32,
}

impl Default for Timestamp {
    /// The epoch itself.
    fn default() -> (r: Self)
        ensures
            r == (Timestamp { secs: 0, nanos: 0 }),
    {
        Timestamp { secs: 0, nanos: 0 }
    }
}

/// One account, as it is stored.
#[derive(Debug)]
pub struct Account {
    /// primary and unique identifier
    pub id: Id,
    /// the name the account logs in with, unique among accounts
    pub username: String,
    /// the identity of the linked player, once there is one
    pub uuid: Option<String>,
    /// the hash of the key that the password derives
    pub password: String,
    /// the secret of the one-time passwords, encrypted under that key
    pub secret: String,
    /// the salt of the key derivation
    pub nonce: String,
    /// whether a login needs a one-time password
    pub totp: bool,
    /// whether the account is disabled
    pub locked: bool,
    /// when the account was made
    pub created_at: Timestamp,
}

/// An `Account` with its texts as sequences of characters.
pub ghost struct AccountView {
    pub id: IdView,
    pub username: Seq<char>,
    pub uuid: Option<Seq<char>>,
    pub password: Seq<char>,
    pub secret: Seq<char>,
    pub nonce: Seq<char>,
    pub totp: bool,
    pub locked: bool,
    pub created_at: Timestamp,
}

/// An optional text as an optional sequence of characters.
pub open spec fn optional_text(text: Option<String>) -> Option<Seq<char>> {
    match text {
        Some(t) => Some(t@),
        None => None,
    }
}

impl View for Account {
    type V = AccountView;

    open spec fn view(&self) -> AccountView {
        AccountView {
            id: self.id@,
            username: self.username@,
            uuid: optional_text(self.uuid),
            password: self.password@,
            secret: self.secret@,
            nonce: self.nonce@,
            totp: self.totp,
            locked: self.locked,
            created_at: self.created_at,
        }
    }
}

/// A change to the stored accounts that the caller has to carry out.
#[derive(Debug)]
pub enum AccountCommand {
    /// Store the identity of the linked player with the account.
    SetUuid { account: Id, uuid: String },
    /// Store the new name with the account.
    SetUsername { account: Id, username: String },
    /// Store the account as it is here, in place of what is stored.
    Save(Account),
}

/// An `AccountCommand` over the views of its parts.
pub ghost enum AccountCommandView {
    SetUuid { account: IdView, uuid: Seq<char> },
    SetUsername { account: IdView, username: Seq<char> },
    Save(AccountView),
}

impl View for AccountCommand {
    type V = AccountCommandView;

    open spec fn view(&self) -> AccountCommandView {
        match self {
            AccountCommand::SetUuid { account, uuid } => AccountCommandView::SetUuid {
                account: account@,
                uuid: uuid@,
            },
            AccountCommand::SetUsername { account, username } => AccountCommandView::SetUsername {
                account: account@,
                username: username@,
            },
            AccountCommand::Save(account) => AccountCommandView::Save(account@),
        }
    }
}

/// The name of the table that holds the accounts.
pub open spec fn account_table() -> Seq<char> {
    "account"@
}

impl Account {
    /// The record that a written account identifier names. One that is not of
    /// the form `account:key` names none.
    pub fn from_id(id: &str) -> (r: Result<Id, ApplicationError>)
        ensures
            names_record_of(id@, account_table()) ==> r is Ok && r->Ok_0@ == (IdView {
                table: account_table(),
                id: written_key(id@)->Some_0,
            }),
            !names_record_of(id@, account_table()) ==> r is Err && r->Err_0@
                == ErrorView::BadRequest("invalid id"@),
    {
        Id::try_from(("account", id))
    }

    /// Links the account with the player `uuid`, here and, by the command, in
    /// storage.
    pub fn link(&mut self, uuid: &str) -> (command: AccountCommand)
        ensures
            final(self)@ == (AccountView { uuid: Some(uuid@), ..old(self)@ }),
            command@ == (AccountCommandView::SetUuid { account: old(self)@.id, uuid: uuid@ }),
    {
        self.uuid = Some(uuid.to_owned());
        AccountCommand::SetUuid { account: self.id.clone(), uuid: uuid.to_owned() }
    }
}

impl Clone for Account {
    fn clone(&self) -> (r: Self)
        ensures
            r@ == self@,
    {
        let uuid = match &self.uuid {
            Some(uuid) => Some(uuid.clone()),
            None => None,
        };
        Account {
            id: self.id.clone(),
            username: self.username.clone(),
            uuid,
            password: self.password.clone(),
            secret: self.secret.clone(),
            nonce: self.nonce.clone(),
            totp: self.totp,
            locked: self.locked,
            created_at: self.created_at,
        }
    }
}

impl Account {
    /// Reads the identifier.
    pub fn id(&self) -> (r: &Id)
        ensures
            *r == self.id,
    {
        &self.id
    }

    /// Reads the name.
    pub fn username(&self) -> (r: &String)
        ensures
            *r == self.username,
    {
        &self.username
    }

    /// Reads the linked identity.
    pub fn uuid(&self) -> (r: &Option<String>)
        ensures
            *r == self.uuid,
    {
        &self.uuid
    }

    /// Reads the password hash.
    pub fn password(&self) -> (r: &String)
        ensures
            *r == self.password,
    {
        &self.password
    }

    /// Reads the encrypted secret.
    pub fn secret(&self) -> (r: &String)
        ensures
            *r == self.secret,
    {
        &self.secret
    }

    /// Reads the salt.
    pub fn nonce(&self) -> (r: &String)
        ensures
            *r == self.nonce,
    {
        &self.nonce
    }

    /// Reads whether one-time passwords are asked for.
    pub fn totp(&self) -> (r: &bool)
        ensures
            *r == self.totp,
    {
        &self.totp
    }

    /// Reads whether the account is disabled.
    pub fn locked(&self) -> (r: &bool)
        ensures
            *r == self.locked,
    {
        &self.locked
    }

    /// Reads the moment of creation.
    pub fn created_at(&self) -> (r: &Timestamp)
        ensures
            *r == self.created_at,
    {
        &self.created_at
    }

    /// Sets the identifier and hands the account back; nothing else changes.
    pub fn set_id(&mut self, val: Id) -> (r: &mut Self)
        ensures
            *r == (Account { id: val, ..*old(self) }),
            *final(self) == *final(r),
    {
        self.id = val;
        self
    }

    /// Sets the name and hands the account back; nothing else changes.
    pub fn set_username(&mut self, val: String) -> (r: &mut Self)
        ensures
            *r == (Account { username: val, ..*old(self) }),
            *final(self) == *final(r),
    {
        self.username = val;
        self
    }

    /// Sets the linked identity and hands the account back; nothing else changes.
    pub fn set_uuid(&mut self, val: Option<String>) -> (r: &mut Self)
        ensures
            *r == (Account { uuid: val, ..*old(self) }),
            *final(self) == *final(r),
    {
        self.uuid = val;
        self
    }

    /// Sets the password hash and hands the account back; nothing else changes.
    pub fn set_password(&mut self, val: String) -> (r: &mut Self)
        ensures
            *r == (Account { password: val, ..*old(self) }),
            *final(self) == *final(r),
    {
        self.password = val;
        self
    }

    /// Sets the encrypted secret and hands the account back; nothing else changes.
    pub fn set_secret(&mut self, val: String) -> (r: &mut Self)
        ensures
            *r == (Account { secret: val, ..*old(self) }),
            *final(self) == *final(r),
    {
        self.secret = val;
        self
    }

    /// Sets the salt and hands the account back; nothing else changes.
    pub fn set_nonce(&mut self, val: String) -> (r: &mut Self)
        ensures
            *r == (Account { nonce: val, ..*old(self) }),
            *final(self) == *final(r),
    {
        self.nonce = val;
        self
    }

    /// Sets whether one-time passwords are asked for and hands the account back; nothing else changes.
    pub fn set_totp(&mut self, val: bool) -> (r: &mut Self)
        ensures
            *r == (Account { totp: val, ..*old(self) }),
            *final(self) == *final(r),
    {
        self.totp = val;
        self
    }

    /// Sets whether the account is disabled and hands the account back; nothing else changes.
    pub fn set_locked(&mut self, val: bool) -> (r: &mut Self)
        ensures
            *r == (Account { locked: val, ..*old(self) }),
            *final(self) == *final(r),
    {
        self.locked = val;
        self
    }

    /// Sets the moment of creation and hands the account back; nothing else changes.
    pub fn set_created_at(&mut self, val: Timestamp) -> (r: &mut Self)
        ensures
            *r == (Account { created_at: val, ..*old(self) }),
            *final(self) == *final(r),
    {
        self.created_at = val;
        self
    }

}

} // verus!
