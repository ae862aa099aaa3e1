//! Schematics: files that belong to the player an account is linked with.

use crate::auth::primitives::base64_bytes;
use crate::auth::primitives::base64_decode;
use crate::auth::primitives::base64_encode;
use crate::auth::primitives::base64_text;
use crate::auth::primitives::BASE64_MAX_INPUT;
use crate::auth::primitives::BASE64_MAX_TEXT;
use crate::data::account::Account;
use crate::error::ApplicationError;
use crate::error::ErrorView;
use crate::text::same_text;
use vstd::prelude::*;
use vstd::utf8::encode_utf8;

verus! {

/// A stored schematic.
#[derive(Debug)]
pub struct Schematic {
    /// the player that the schematic belongs to
    pub owner: String,
    /// the file, in Base64
    pub data: String,
    /// the name that the file was uploaded under
    pub name: String,
}

/// `POST /account/:account_id/schematic/upload/:schematic_name`: the record of
/// the uploaded file. Only an account that is linked with a player can own
/// schematics; the file has to fit one Base64 block.
pub fn upload(account: &Account, schematic_name: &str, data: &[u8]) -> (r: Result<
    Schematic,
    ApplicationError,
>)
    requires
        data@.len() <= BASE64_MAX_INPUT,
    ensures
        match account@.uuid {
            Some(uuid) => {
                &&& r is Ok
                &&& r->Ok_0.owner@ == uuid
                &&& r->Ok_0.data@ == base64_text(data@)
                &&& r->Ok_0.name@ == schematic_name@
                &&& base64_bytes(r->Ok_0.data@) == Some(data@)
            },
            None => r is Err && r->Err_0@ == ErrorView::Unauthorized,
        },
{
    match &account.uuid {
        Some(uuid) => Ok(
            Schematic {
                owner: uuid.clone(),
                data: base64_encode(data),
                name: schematic_name.to_owned(),
            },
        ),
        None => Err(ApplicationError::Unauthorized),
    }
}

/// Whether the account is linked with the player `owner`.
pub open spec fn owns(account: Option<Seq<char>>, owner: Seq<char>) -> bool {
    account == Some(owner)
}

/// Tells whether the account is linked with the player `owner`.
fn is_owner(account: &Account, owner: &str) -> (r: bool)
    ensures
        r == owns(account@.uuid, owner@),
{
    match &account.uuid {
        Some(uuid) => same_text(uuid.as_str(), owner),
        None => false,
    }
}

/// What a download gives for the schematic found, to an account: the file,
/// where the text stored for it is Base64 that the decoder takes; else an
/// internal error.
pub open spec fn stored_file(data: Seq<char>) -> Option<Seq<u8>> {
    if encode_utf8(data).len() > BASE64_MAX_TEXT {
        None
    } else {
        base64_bytes(data)
    }
}

/// `GET /account/:account_id/schematic/:schematic_id`, given the schematic
/// that was found. Where there is none the request is a bad one; a schematic
/// goes to its owner alone.
pub fn download(found: Option<&Schematic>, account: &Account) -> (r: Result<
    Vec<u8>,
    ApplicationError,
>)
    ensures
        match found {
            None => r is Err && r->Err_0@ == ErrorView::BadRequest("schematic not found"@),
            Some(schematic) => if !owns(account@.uuid, schematic.owner@) {
                r is Err && r->Err_0@ == ErrorView::Unauthorized
            } else {
                match stored_file(schematic.data@) {
                    Some(file) => r is Ok && r->Ok_0@ == file,
                    None => r is Err && r->Err_0@ == ErrorView::InternalServerError,
                }
            },
        },
{
    match found {
        Some(schematic) => {
            if !is_owner(account, schematic.owner.as_str()) {
                return Err(ApplicationError::Unauthorized);
            }
            if schematic.data.as_str().as_bytes().len() > BASE64_MAX_TEXT {
                return Err(ApplicationError::InternalServerError);
            }
            match base64_decode(schematic.data.as_str()) {
                Some(file) => Ok(file),
                None => Err(ApplicationError::InternalServerError),
            }
        },
        None => Err(ApplicationError::BadRequest("schematic not found".to_owned())),
    }
}

/// `DELETE /account/:account_id/schematic/:schematic_id`, given the owner
/// that was found for the schematic: only its owner may delete it, and a
/// schematic that was not found is nobody's.
pub fn delete(owner: Option<&str>, account: &Account) -> (r: Result<(), ApplicationError>)
    ensures
        match owner {
            Some(player) => if owns(account@.uuid, player@) {
                r is Ok
            } else {
                r is Err && r->Err_0@ == ErrorView::Unauthorized
            },
            None => r is Err && r->Err_0@ == ErrorView::Unauthorized,
        },
{
    match owner {
        Some(player) => {
            if is_owner(account, player) {
                Ok(())
            } else {
                Err(ApplicationError::Unauthorized)
            }
        },
        None => Err(ApplicationError::Unauthorized),
    }
}

} // verus!
