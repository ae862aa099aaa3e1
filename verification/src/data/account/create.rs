//! Signing up: from a name and a password to the record of a new account.

use crate::auth::derive_key;
use crate::auth::hash_key;
use crate::auth::lemma_salt_text_derives;
use crate::auth::password_verifies;
use crate::auth::primitives::ARGON2_MAX_INPUT;
use crate::auth::primitives::SALT_DRAWN_LENGTH;
use crate::auth::totp::is_hex_char;
use crate::auth::totp::secret_generate;
use crate::auth::totp::SECRET_DRAWN_LENGTH;
use crate::auth::Salt;
use crate::error::ApplicationError;
use crate::error::ErrorView;
use vstd::prelude::*;
use vstd::utf8::encode_utf8;

verus! {

/// What a sign-up brings: the name to log in with and the password.
#[derive(Debug)]
pub struct CreateAccount {
    pub username: String,
    pub password: String,
}

/// What is stored of a new account. The password itself is not among it.
#[derive(Debug)]
pub struct NewAccount {
    /// the name the account logs in with
    pub username: String,
    /// the hash of the key that the password derives under `nonce`
    pub password: String,
    /// the salt of the key derivation, drawn for this account
    pub nonce: String,
    /// a secret for one-time passwords, drawn for this account and not yet
    /// encrypted
    pub secret: String,
}

impl CreateAccount {
    /// Makes the record of the new account: a salt and a secret are drawn, the
    /// password's key is derived under the salt, and its hash is kept. The
    /// request is used up. Whatever was drawn, the password given here is the
    /// one that the record verifies. Only a password that Argon2 does not take
    /// fails, as unauthorized.
    pub fn create(self) -> (r: Result<NewAccount, ApplicationError>)
        ensures
            encode_utf8(self.password@).len() <= ARGON2_MAX_INPUT ==> {
                &&& r is Ok
                &&& r->Ok_0.username@ == self.username@
                &&& r->Ok_0.nonce@.len() == SALT_DRAWN_LENGTH
                &&& password_verifies(r->Ok_0.nonce@, r->Ok_0.password@, self.password@)
                &&& r->Ok_0.secret@.len() == SECRET_DRAWN_LENGTH
                &&& forall|i: int|
                    0 <= i < r->Ok_0.secret@.len() ==> is_hex_char(#[trigger] r->Ok_0.secret@[i])
            },
            encode_utf8(self.password@).len() > ARGON2_MAX_INPUT ==> r is Err && r->Err_0@
                == ErrorView::Unauthorized,
    {
        let salt = Salt::generate();
        let nonce = salt.as_str().to_owned();
        proof {
            lemma_salt_text_derives(self.password@, nonce@);
        }
        let key = match derive_key(self.password.as_str(), &salt) {
            Ok(key) => key,
            Err(e) => { return Err(e); },
        };
        let hash = hash_key(&key);
        let secret = secret_generate();
        Ok(NewAccount { username: self.username, password: hash, nonce, secret })
    }
}

} // verus!
