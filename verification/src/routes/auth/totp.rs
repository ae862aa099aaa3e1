//! Switching one-time passwords on and off.

use crate::auth::token_text;
use crate::auth::totp::totp_qr;
use crate::auth::totp::totp_qr_image;
use crate::auth::totp::Algorithm;
use crate::data::account::Account;
use crate::data::account::AccountCommand;
use crate::data::account::AccountCommandView;
use crate::data::account::AccountView;
use crate::error::ApplicationError;
use crate::error::ErrorView;
use vstd::prelude::*;
use vstd::utf8::encode_utf8;

verus! {

/// The picture that sets up an authenticator: a PNG in Base64.
#[derive(Debug)]
pub struct QrCodeResponse {
    pub data: String,
}

/// What the request for that picture brings.
#[derive(Debug)]
pub struct QrCodeRequest {
    pub password: String,
}

/// What a switch of the one-time passwords brings.
#[derive(Debug)]
pub struct TotpToggleRequest {
    pub password: String,
    pub token: String,
}

/// Who the authenticator is told the one-time passwords are for.
pub const QR_ISSUER: &'static str = "MyPlayPlanet";

/// The digits of the one-time passwords that the QR code announces.
pub const QR_DIGITS: usize = 6;

/// The steps before and after that the QR code's generator tolerates.
pub const QR_SKEW: u8 = 1;

/// The seconds of a step that the QR code announces.
pub const QR_STEP: u64 = 30;

/// `POST /auth/totp`: the QR code that sets an authenticator up for the
/// account. It is made of the account's secret, which only the right password
/// reads; an account for which no code can be made is unauthorized.
pub fn get_qr(account: &Account, data: &QrCodeRequest) -> (r: Result<
    QrCodeResponse,
    ApplicationError,
>)
    ensures
        match account@.secret_under(data.password@) {
            Err(kind) => r is Err && r->Err_0@.kind() == kind,
            Ok(secret) => match totp_qr_image(
                Algorithm::SHA1,
                QR_DIGITS,
                QR_SKEW,
                QR_STEP,
                encode_utf8(secret),
                QR_ISSUER@,
                account@.username,
            ) {
                Some(image) => r is Ok && r->Ok_0.data@ == image,
                None => r is Err && r->Err_0@ == ErrorView::Unauthorized,
            },
        },
{
    let secret = match account.read_secret(data.password.as_str()) {
        Ok(secret) => secret,
        Err(e) => { return Err(e); },
    };
    match totp_qr(
        Algorithm::SHA1,
        QR_DIGITS,
        QR_SKEW,
        QR_STEP,
        secret.as_str().as_bytes_vec(),
        QR_ISSUER,
        account.username.as_str(),
    ) {
        Some(data) => Ok(QrCodeResponse { data }),
        None => Err(ApplicationError::Unauthorized),
    }
}

/// `PUT /auth/totp`: switches the one-time passwords of the account on where
/// they are off, and off where they are on. Either way the request has to log
/// in as if they were on: with the password and a one-time password of this
/// moment. A request that does not leaves the account as it is; one that does
/// leaves it switched, to be stored so.
pub fn toggle(account: &mut Account, data: &TotpToggleRequest) -> (r: Result<
    AccountCommand,
    ApplicationError,
>)
    ensures
        match (AccountView { totp: true, ..old(account)@ }).admission(
            data.password@,
            Some(data.token@),
        ) {
            Err(kind) => r is Err && r->Err_0@.kind() == kind,
            Ok(_) => r is Ok || r->Err_0@ == ErrorView::Unauthorized || r->Err_0@ is SystemTimeError,
        },
        r is Err ==> final(account)@ == old(account)@,
        r is Ok ==> final(account)@ == (AccountView { totp: !old(account)@.totp, ..old(account)@ })
            && r->Ok_0@ == AccountCommandView::Save(final(account)@),
{
    let new_state = !account.totp;
    let old_state = account.totp;
    account.totp = true;
    let token = Some(data.token.as_str());
    assert(token_text(token) == Some(data.token@));
    match account.login(data.password.as_str(), token) {
        Ok(_) => {
            account.totp = new_state;
            Ok(AccountCommand::Save(account.clone()))
        },
        Err(e) => {
            account.totp = old_state;
            Err(e)
        },
    }
}

} // verus!
