//! Logging in and out, and keeping a session alive.

pub mod password;
pub mod totp;

use crate::auth::session::command_views;
use crate::auth::session::Session;
use crate::auth::session::SessionCommand;
use crate::auth::session::SessionCommandView;
use crate::auth::session::SessionTypeView;
use crate::auth::session::REFRESH_LENGTH;
use crate::auth::session::REFRESH_TOKEN_LENGTH;
use crate::auth::session::SESSION_LENGTH;
use crate::auth::token_text;
use crate::auth::totp_required;
use crate::data::account::optional_text;
use crate::data::account::Account;
use crate::error::ApplicationError;
use crate::error::ErrorView;
use vstd::prelude::*;

verus! {

/// What a login brings.
#[derive(Debug)]
pub struct LoginRequest {
    /// the username
    pub username: String,
    /// the password
    pub password: String,
    /// the one-time password, for accounts that ask for one
    pub token: Option<String>,
}

/// What a refresh brings.
#[derive(Debug)]
pub struct RefreshRequest {
    /// the session to refresh
    pub session_id: String,
    /// the token that the session was last given
    pub refresh_token: String,
}

/// `POST /auth/login`, given the account that was found under the request's
/// username. No account is unauthorized, like a wrong password. Where the
/// account's login succeeds a session is started for it: the commands are to
/// be carried out in their order before the session is handed out.
pub fn login(found: Option<Account>, data: &LoginRequest) -> (r: Result<
    (Session, Vec<SessionCommand>),
    ApplicationError,
>)
    ensures
        match found {
            None => r is Err && r->Err_0@ == ErrorView::Unauthorized,
            Some(account) => match account@.admission(data.password@, optional_text(data.token)) {
                Err(kind) => r is Err && r->Err_0@.kind() == kind,
                Ok(None) => r is Ok,
                Ok(Some(_)) => r is Ok || r->Err_0@ == ErrorView::Unauthorized
                    || r->Err_0@ is SystemTimeError,
            },
        },
        r is Err && r->Err_0@ is Forbidden ==> r->Err_0@ == ErrorView::Forbidden(totp_required()),
        r is Ok ==> {
            &&& r->Ok_0.0@.target == SessionTypeView::Human(found->Some_0@.id)
            &&& r->Ok_0.0@.exp == r->Ok_0.0@.iat + SESSION_LENGTH
            &&& r->Ok_0.0@.refresh_exp == r->Ok_0.0@.iat + REFRESH_LENGTH
            &&& command_views(r->Ok_0.1@) == r->Ok_0.0@.start_commands()
        },
{
    match found {
        Some(account) => {
            let token = match &data.token {
                Some(token) => Some(token.as_str()),
                None => None,
            };
            assert(token_text(token) == optional_text(data.token));
            match account.login(data.password.as_str(), token) {
                Ok(_) => Ok(account.start_session()),
                Err(e) => Err(e),
            }
        },
        None => Err(ApplicationError::Unauthorized),
    }
}

/// `POST /auth/refresh`, given the session that was found under the
/// request's session key. No session is unauthorized. A session is
/// refreshed where the request brings its token, and is to be stored as
/// refreshed; with any other token it is unauthorized and is to be removed.
pub fn refresh(found: Option<Session>, data: &RefreshRequest) -> (r: (
    Result<Session, ApplicationError>,
    Option<SessionCommand>,
))
    ensures
        match found {
            None => r.0 is Err && r.0->Err_0@ == ErrorView::Unauthorized && r.1 is None,
            Some(session) => if session@.refresh_token == data.refresh_token@ {
                &&& r.0 is Ok
                &&& r.0->Ok_0@ == session@.refreshed(r.0->Ok_0@.iat, r.0->Ok_0@.refresh_token)
                &&& r.0->Ok_0@.refresh_token.len() == REFRESH_TOKEN_LENGTH
                &&& r.1 is Some
                &&& r.1->Some_0@ == SessionCommandView::Update(r.0->Ok_0@)
            } else {
                &&& r.0 is Err
                &&& r.0->Err_0@ == ErrorView::Unauthorized
                &&& r.1 is Some
                &&& r.1->Some_0@ == SessionCommandView::Delete(session@.id)
            },
        },
{
    match found {
        Some(session) => {
            let mut session = session;
            let (refreshed, command) = session.refresh(data.refresh_token.as_str());
            match refreshed {
                Ok(_) => (Ok(session), Some(command)),
                Err(e) => (Err(e), Some(command)),
            }
        },
        None => (Err(ApplicationError::Unauthorized), None),
    }
}

} // verus!
