//! Time-based one-time passwords, taken on trust from `totp-rs`.
//!
//! Nothing in this file is proved: each function makes one call into the
//! library and says what the library's source shows of it.

use vstd::prelude::*;

verus! {

/// The hash function under a one-time password.
#[derive(Clone, Copy, Debug, PartialEq, Eq, Structural)]
pub enum Algorithm {
    SHA1,
    SHA256,
    SHA512,
}

/// The fewest digits of a one-time password.
pub const MIN_DIGITS: usize = 6;

/// The most digits of a one-time password.
pub const MAX_DIGITS: usize = 8;

/// The shortest secret that one-time passwords are made of, in bytes.
pub const MIN_SECRET_LENGTH: usize = 16;

/// The number of characters of a secret drawn here: 20 bytes, two hexadecimal
/// digits each.
pub const SECRET_DRAWN_LENGTH: usize = 40;

/// Whether `token` is a one-time password of `secret` at `time`, seconds since
/// the epoch, for a generator of that algorithm, number of digits and step,
/// which tolerates `skew` steps before and after.
pub uninterp spec fn totp_accepts(
    algorithm: Algorithm,
    digits: usize,
    skew: u8,
    step: u64,
    secret: Seq<u8>,
    token: Seq<char>,
    time: u64,
) -> bool;

/// The picture, a PNG in Base64, of the QR code that sets an authenticator up
/// for a generator with these settings, this secret and this label; `None`
/// where there is no such generator or it cannot be drawn.
pub uninterp spec fn totp_qr_image(
    algorithm: Algorithm,
    digits: usize,
    skew: u8,
    step: u64,
    secret: Seq<u8>,
    issuer: Seq<char>,
    account_name: Seq<char>,
) -> Option<Seq<char>>;

/// The digits of lower-case hexadecimal.
pub open spec fn is_hex_char(c: char) -> bool {
    ||| '0' <= c <= '9'
    ||| 'a' <= c <= 'f'
}

/// `TOTP::new`, then `TOTP::check`: whether the token is one of the secret at
/// that time. `requires` leaves out what `new` refuses (digits outside 6 to 8, a
/// secret under 16 bytes) and the times on which the steps that `check` walks
/// would leave `u64`.
#[verifier::external_body]
pub(crate) fn totp_check(
    algorithm: Algorithm,
    digits: usize,
    skew: u8,
    step: u64,
    secret: Vec<u8>,
    token: &str,
    time: u64,
) -> (r: Option<bool>)
    requires
        MIN_DIGITS <= digits <= MAX_DIGITS,
        secret@.len() >= MIN_SECRET_LENGTH,
        step > 0,
        skew <= time / step,
        (time / step + skew) * step <= u64::MAX,
    ensures
        r == Some(totp_accepts(algorithm, digits, skew, step, secret@, token@, time)),
{
    let algorithm = match algorithm {
        Algorithm::SHA1 => totp_rs::Algorithm::SHA1,
        Algorithm::SHA256 => totp_rs::Algorithm::SHA256,
        Algorithm::SHA512 => totp_rs::Algorithm::SHA512,
    };
    match totp_rs::TOTP::new(algorithm, digits, skew, step, secret, None, String::new()) {
        Ok(totp) => Some(totp.check(token, time)),
        Err(_) => None,
    }
}

/// `TOTP::new`, then `TOTP::check_current`: whether the token is one of the
/// secret now, or the message of the clock's error. The answer depends on when
/// the call is made; whenever that is, it is the answer of `check` for some
/// time. `requires` leaves out what `new` refuses, and every skew but 0: with
/// a skew the steps that the check walks leave `u64` where the clock stands
/// near the epoch.
#[verifier::external_body]
pub(crate) fn totp_check_current(
    algorithm: Algorithm,
    digits: usize,
    skew: u8,
    step: u64,
    secret: Vec<u8>,
    token: &str,
) -> (r: Result<bool, String>)
    requires
        MIN_DIGITS <= digits <= MAX_DIGITS,
        secret@.len() >= MIN_SECRET_LENGTH,
        step > 0,
        skew == 0,
    ensures
        r is Ok ==> exists|time: u64|
            r->Ok_0 == totp_accepts(algorithm, digits, skew, step, secret@, token@, time),
{
    let algorithm = match algorithm {
        Algorithm::SHA1 => totp_rs::Algorithm::SHA1,
        Algorithm::SHA256 => totp_rs::Algorithm::SHA256,
        Algorithm::SHA512 => totp_rs::Algorithm::SHA512,
    };
    match totp_rs::TOTP::new(algorithm, digits, skew, step, secret, None, String::new()) {
        Ok(totp) => match totp.check_current(token) {
            Ok(accepted) => Ok(accepted),
            Err(e) => Err(e.to_string()),
        },
        Err(e) => Err(e.to_string()),
    }
}

/// `TOTP::new` with an issuer, then `TOTP::get_qr_base64`: the picture of the
/// QR code, or nothing where `new` refuses the settings or the code cannot be
/// drawn. `new` refuses, among others, a secret under 16 bytes and an account
/// name with a colon in it.
#[verifier::external_body]
pub(crate) fn totp_qr(
    algorithm: Algorithm,
    digits: usize,
    skew: u8,
    step: u64,
    secret: Vec<u8>,
    issuer: &str,
    account_name: &str,
) -> (r: Option<String>)
    ensures
        match r {
            Some(image) => totp_qr_image(
                algorithm,
                digits,
                skew,
                step,
                secret@,
                issuer@,
                account_name@,
            ) == Some(image@),
            None => totp_qr_image(algorithm, digits, skew, step, secret@, issuer@, account_name@)
                is None,
        },
        secret@.len() < MIN_SECRET_LENGTH ==> r is None,
        account_name@.contains(':') ==> r is None,
{
    let algorithm = match algorithm {
        Algorithm::SHA1 => totp_rs::Algorithm::SHA1,
        Algorithm::SHA256 => totp_rs::Algorithm::SHA256,
        Algorithm::SHA512 => totp_rs::Algorithm::SHA512,
    };
    let issuer = Some(issuer.to_owned());
    match totp_rs::TOTP::new(algorithm, digits, skew, step, secret, issuer, account_name.to_owned()) {
        Ok(totp) => totp.get_qr_base64().ok(),
        Err(_) => None,
    }
}

/// `Secret::generate_secret`, written out: 20 random bytes as 40 digits of
/// lower-case hexadecimal.
#[verifier::external_body]
pub(crate) fn secret_generate() -> (r: String)
    ensures
        r@.len() == SECRET_DRAWN_LENGTH,
        forall|i: int| 0 <= i < r@.len() ==> is_hex_char(#[trigger] r@[i]),
{
    totp_rs::Secret::generate_secret().to_string()
}

} // verus!
