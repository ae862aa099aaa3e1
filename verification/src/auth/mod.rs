//! Keys from passwords, and the secrets kept under them.
//!
//! A password never reaches storage. With the account's salt it gives a key of
//! 32 bytes; the account stores a hash of that key, and its one-time-password
//! secret encrypted under it.

pub mod ambient;
pub mod authz;
pub mod primitives;
pub mod session;
pub mod totp;

use crate::auth::primitives::argon2_hash_salted;
use crate::auth::primitives::argon2_verdict;
use crate::auth::primitives::argon2_verify;
use crate::auth::primitives::argon2id;
use crate::auth::primitives::argon2id_into;
use crate::auth::primitives::base64_bytes;
use crate::auth::primitives::base64_decode;
use crate::auth::primitives::base64_encode;
use crate::auth::primitives::base64_text;
use crate::auth::primitives::is_base64_char;
use crate::auth::primitives::is_salt_char;
use crate::auth::primitives::is_salt_text;
use crate::auth::primitives::nonce_generate;
use crate::auth::primitives::salt_from_b64;
use crate::auth::primitives::salt_generate;
use crate::auth::primitives::utf8_text;
use crate::auth::primitives::xchacha20poly1305_open;
use crate::auth::primitives::xchacha20poly1305_seal;
use crate::auth::primitives::xchacha_open;
use crate::auth::primitives::xchacha_seal;
use crate::auth::primitives::ARGON2_MAX_INPUT;
use crate::auth::primitives::ARGON2_MIN_SALT;
use crate::auth::primitives::BASE64_MAX_TEXT;
use crate::auth::primitives::SALT_DRAWN_LENGTH;
use crate::auth::session::command_views;
use crate::auth::session::session_table;
use crate::auth::session::Session;
use crate::auth::session::SessionCommand;
use crate::auth::session::SessionCommandView;
use crate::auth::session::SessionType;
use crate::auth::session::SessionTypeView;
use crate::auth::session::REFRESH_LENGTH;
use crate::auth::session::REFRESH_TOKEN_LENGTH;
use crate::auth::session::SESSION_KEY_LENGTH;
use crate::auth::session::SESSION_LENGTH;
use crate::auth::totp::is_hex_char;
use crate::auth::totp::secret_generate;
use crate::auth::totp::totp_accepts;
use crate::auth::totp::totp_check;
use crate::auth::totp::totp_check_current;
use crate::auth::totp::Algorithm;
use crate::auth::totp::MIN_SECRET_LENGTH;
use crate::auth::totp::SECRET_DRAWN_LENGTH;
use crate::data::account::Account;
use crate::data::account::AccountView;
use crate::error::ApplicationError;
use crate::error::ErrorKind;
use crate::error::ErrorView;
use crate::text::after;
use crate::text::before;
use crate::text::lemma_before_when_absent;
use crate::text::lemma_split_joined;
use crate::text::split_first;
use vstd::prelude::*;
use vstd::utf8::decode_utf8;
use vstd::utf8::encode_utf8;
use vstd::utf8::encode_utf8_decode_utf8;
use vstd::utf8::encode_utf8_valid_utf8;
use vstd::utf8::is_ascii_chars;
use vstd::utf8::is_ascii_chars_encode_utf8;
use vstd::utf8::valid_utf8;

verus! {

/// The length of a nonce of the cipher, in bytes.
pub const NONCE_LENGTH: usize = 24;

/// The longest text that `encrypt` takes, in bytes: with its tag it still has
/// to go into one Base64 block.
pub const MAX_PLAINTEXT: usize = 1_610_612_717;

/// A salt for key derivation: 4 to 64 characters of the PHC salt alphabet.
pub struct Salt {
    text: String,
}

impl View for Salt {
    type V = Seq<char>;

    closed spec fn view(&self) -> Seq<char> {
        self.text@
    }
}

impl Salt {
    #[verifier::type_invariant]
    spec fn well_formed(self) -> bool {
        is_salt_text(self.text@)
    }

    /// Takes `text` as a salt, where it can serve as one.
    pub fn from_b64(text: &str) -> (r: Result<Self, ApplicationError>)
        ensures
            is_salt_text(text@) ==> r is Ok && r->Ok_0@ == text@,
            !is_salt_text(text@) ==> r is Err && r->Err_0@ is HashError,
    {
        match salt_from_b64(text) {
            Ok(text) => Ok(Salt { text }),
            Err(message) => Err(ApplicationError::HashError(message)),
        }
    }

    /// Draws a new salt at random: a salt text of 22 characters.
    pub fn generate() -> (r: Self)
        ensures
            is_salt_text(r@),
            r@.len() == SALT_DRAWN_LENGTH,
    {
        Salt { text: salt_generate() }
    }

    /// The salt's text, which is a salt text whatever the salt.
    pub fn as_str(&self) -> (r: &str)
        ensures
            r@ == self@,
            is_salt_text(r@),
    {
        proof {
            use_type_invariant(self);
        }
        self.text.as_str()
    }

    /// The salt's text, as it is stored with the account.
    pub fn to_string(&self) -> (r: String)
        ensures
            r@ == self@,
    {
        self.text.clone()
    }
}

/// Whether Argon2 takes this password with this salt: the password is of at most
/// 2^32 - 1 bytes, and the salt of 8 at least.
pub open spec fn key_derivable(password: Seq<char>, salt: Seq<char>) -> bool {
    &&& encode_utf8(password).len() <= ARGON2_MAX_INPUT
    &&& ARGON2_MIN_SALT <= encode_utf8(salt).len() <= ARGON2_MAX_INPUT
}

/// The key that belongs to a password and a salt: Argon2id of their bytes.
pub open spec fn derived_key(password: Seq<char>, salt: Seq<char>) -> Seq<u8> {
    argon2id(encode_utf8(password), encode_utf8(salt))
}

/// A salt text is as many bytes as characters, so it derives keys as soon as it
/// has 8 characters.
pub proof fn lemma_salt_text_derives(password: Seq<char>, salt: Seq<char>)
    requires
        is_salt_text(salt),
    ensures
        encode_utf8(salt).len() == salt.len(),
        key_derivable(password, salt) <==> encode_utf8(password).len() <= ARGON2_MAX_INPUT
            && salt.len() >= ARGON2_MIN_SALT,
{
    assert(is_ascii_chars(salt)) by {
        assert forall|i: int| 0 <= i < salt.len() implies '\0' <= #[trigger] salt[i] <= '\x7f' by {
            assert(is_salt_char(salt[i]));
        }
    }
    is_ascii_chars_encode_utf8(salt);
}

/// Derives the key of 32 bytes that belongs to `password` under `salt`.
pub fn derive_key(password: &str, salt: &Salt) -> (r: Result<[u8; 32], ApplicationError>)
    ensures
        key_derivable(password@, salt@) ==> r is Ok && r->Ok_0@ == derived_key(password@, salt@),
        !key_derivable(password@, salt@) ==> r is Err && r->Err_0@ == ErrorView::Unauthorized,
{
    let mut target = [0u8; 32];
    if argon2id_into(password.as_bytes(), salt.as_str().as_bytes(), &mut target) {
        Ok(target)
    } else {
        Err(ApplicationError::Unauthorized)
    }
}

/// Deriving is a function: the same password and salt give the same key, in
/// every call.
pub proof fn lemma_derive_key_deterministic(
    password: Seq<char>,
    salt: Seq<char>,
    other_password: Seq<char>,
    other_salt: Seq<char>,
)
    requires
        password == other_password,
        salt == other_salt,
    ensures
        key_derivable(password, salt) == key_derivable(other_password, other_salt),
        derived_key(password, salt) == derived_key(other_password, other_salt),
        derived_key(password, salt).len() == derived_key(other_password, other_salt).len(),
{
}

/// Hashes `key` under a salt drawn for this call. The result differs from call
/// to call; each one verifies against `key`.
pub fn hash_key(key: &[u8; 32]) -> (r: String)
    ensures
        argon2_verdict(key@, r@) == Some(true),
{
    argon2_hash_salted(key)
}

/// The stored form of `data` encrypted under `key` with `nonce`: the nonce and
/// the ciphertext, each in Base64, with a colon between them.
pub open spec fn sealed_text(key: Seq<u8>, nonce: Seq<u8>, data: Seq<char>) -> Seq<char> {
    base64_text(nonce) + seq![':'] + base64_text(
        xchacha20poly1305_seal(key, nonce, encode_utf8(data)),
    )
}

/// Whether a part of a stored secret is short enough for the Base64 decoder.
pub open spec fn decodable_length(part: Seq<char>) -> bool {
    encode_utf8(part).len() <= BASE64_MAX_TEXT
}

/// What `decrypt` makes of a stored text under a key. The text is cut at its
/// first colon, and what follows at the next; both parts have to be Base64, the
/// first of a nonce. A text that is not of that form, or whose plaintext is not
/// UTF-8, is an internal error; one that the key does not authenticate is
/// unauthorized.
pub open spec fn decrypted(key: Seq<u8>, text: Seq<char>) -> Result<Seq<char>, ErrorView> {
    match after(text, ':') {
        None => Err(ErrorView::InternalServerError),
        Some(rest) => {
            let first = before(text, ':');
            let second = before(rest, ':');
            if !decodable_length(first) || !decodable_length(second) {
                Err(ErrorView::InternalServerError)
            } else {
                match (base64_bytes(first), base64_bytes(second)) {
                    (Some(nonce), Some(sealed)) => {
                        if nonce.len() != NONCE_LENGTH {
                            Err(ErrorView::InternalServerError)
                        } else {
                            match xchacha20poly1305_open(key, nonce, sealed) {
                                None => Err(ErrorView::Unauthorized),
                                Some(plain) => {
                                    if valid_utf8(plain) {
                                        Ok(decode_utf8(plain))
                                    } else {
                                        Err(ErrorView::InternalServerError)
                                    }
                                },
                            }
                        }
                    },
                    _ => Err(ErrorView::InternalServerError),
                }
            }
        },
    }
}

/// Base64 text holds no colon and is as many bytes as characters.
proof fn lemma_base64_part(part: Seq<char>)
    requires
        forall|i: int| 0 <= i < part.len() ==> is_base64_char(#[trigger] part[i]),
    ensures
        forall|i: int| 0 <= i < part.len() ==> part[i] != ':',
        encode_utf8(part).len() == part.len(),
{
    assert forall|i: int| 0 <= i < part.len() implies part[i] != ':' by {
        assert(is_base64_char(part[i]));
    }
    assert(is_ascii_chars(part)) by {
        assert forall|i: int| 0 <= i < part.len() implies '\0' <= #[trigger] part[i] <= '\x7f' by {
            assert(is_base64_char(part[i]));
        }
    }
    is_ascii_chars_encode_utf8(part);
}

/// Encrypts `data` under `key` with the nonce given, and writes the result in
/// its stored form. `decrypt` under the same key gives `data` back.
pub fn encrypt_with(key: &[u8; 32], nonce: &[u8; 24], data: &str) -> (r: String)
    requires
        encode_utf8(data@).len() <= MAX_PLAINTEXT,
    ensures
        r@ == sealed_text(key@, nonce@, data@),
        decrypted(key@, r@) == Ok::<Seq<char>, ErrorView>(data@),
{
    let sealed = match xchacha_seal(key, nonce, data.as_bytes()) {
        Some(sealed) => sealed,
        None => Vec::new(),
    };
    let first = base64_encode(nonce.as_slice());
    let second = base64_encode(sealed.as_slice());
    let mut text = first.clone();
    proof {
        reveal_strlit(":");
        assert(":"@ == seq![':']);
    }
    text.append(":");
    text.append(second.as_str());
    proof {
        lemma_base64_part(first@);
        lemma_base64_part(second@);
        lemma_split_joined(first@, second@, ':');
        lemma_before_when_absent(second@, ':');
        encode_utf8_valid_utf8(data@);
        encode_utf8_decode_utf8(data@);
        assert(nonce@.len() == NONCE_LENGTH);
    }
    text
}

/// Encrypts `data` under `key` with a nonce drawn for this call. The result
/// differs from call to call; `decrypt` under the same key gives `data` back
/// from each.
pub fn encrypt(key: &[u8; 32], data: &str) -> (r: String)
    requires
        encode_utf8(data@).len() <= MAX_PLAINTEXT,
    ensures
        exists|nonce: Seq<u8>| nonce.len() == NONCE_LENGTH && r@ == sealed_text(key@, nonce, data@),
        decrypted(key@, r@) == Ok::<Seq<char>, ErrorView>(data@),
{
    let nonce = nonce_generate();
    let r = encrypt_with(key, &nonce, data);
    assert(nonce@.len() == NONCE_LENGTH && r@ == sealed_text(key@, nonce@, data@));
    r
}

/// Reads a stored secret back under `key`. It succeeds only where the cipher
/// authenticates the text under that key: a wrong key or a changed text gives
/// an error, never other plaintext.
pub fn decrypt(key: &[u8; 32], data: &str) -> (r: Result<String, ApplicationError>)
    ensures
        match decrypted(key@, data@) {
            Ok(plain) => r is Ok && r->Ok_0@ == plain,
            Err(e) => r is Err && r->Err_0@ == e,
        },
{
    let (first, rest) = split_first(data, ':');
    let rest = match rest {
        Some(rest) => rest,
        None => { return Err(ApplicationError::InternalServerError); },
    };
    let (second, _) = split_first(rest, ':');
    if first.as_bytes().len() > BASE64_MAX_TEXT || second.as_bytes().len() > BASE64_MAX_TEXT {
        return Err(ApplicationError::InternalServerError);
    }
    let nonce = match base64_decode(first) {
        Some(nonce) => nonce,
        None => { return Err(ApplicationError::InternalServerError); },
    };
    let sealed = match base64_decode(second) {
        Some(sealed) => sealed,
        None => { return Err(ApplicationError::InternalServerError); },
    };
    if nonce.len() != NONCE_LENGTH {
        return Err(ApplicationError::InternalServerError);
    }
    match xchacha_open(key, nonce.as_slice(), sealed.as_slice()) {
        None => Err(ApplicationError::Unauthorized),
        Some(plain) => match utf8_text(plain) {
            Some(text) => Ok(text),
            None => Err(ApplicationError::InternalServerError),
        },
    }
}

/// The digits of a one-time password at login.
pub const TOTP_DIGITS: usize = 6;

/// The steps before and after the current one whose passwords a login takes:
/// none, so that one password is valid at any moment.
pub const TOTP_SKEW: u8 = 0;

/// The seconds that a one-time password is valid for.
pub const TOTP_STEP: u64 = 30;

/// The hash function under the one-time passwords at login.
pub open spec fn totp_algorithm() -> Algorithm {
    Algorithm::SHA256
}

/// What is said to a login that needs a one-time password and brings none.
pub open spec fn totp_required() -> Seq<char> {
    "TOTP is required"@
}

/// A token that may be missing, as its characters.
pub open spec fn token_text(token: Option<&str>) -> Option<Seq<char>> {
    match token {
        Some(t) => Some(t@),
        None => None,
    }
}

/// Whether `password` is the password behind a stored salt and hash: the key it
/// derives under the salt verifies against the hash.
pub open spec fn password_verifies(nonce: Seq<char>, hash: Seq<char>, password: Seq<char>) -> bool {
    &&& is_salt_text(nonce)
    &&& key_derivable(password, nonce)
    &&& argon2_verdict(derived_key(password, nonce), hash) == Some(true)
}

impl AccountView {
    /// The key that `password` gives for this account. A stored salt that is
    /// none is a hash error; a password or salt that Argon2 refuses is
    /// unauthorized.
    pub open spec fn encryption_key(self, password: Seq<char>) -> Result<Seq<u8>, ErrorKind> {
        if !is_salt_text(self.nonce) {
            Err(ErrorKind::HashError)
        } else if !key_derivable(password, self.nonce) {
            Err(ErrorKind::Unauthorized)
        } else {
            Ok(derived_key(password, self.nonce))
        }
    }

    /// The account's secret as `password` reads it.
    pub open spec fn secret_under(self, password: Seq<char>) -> Result<Seq<char>, ErrorKind> {
        match self.encryption_key(password) {
            Err(kind) => Err(kind),
            Ok(key) => match decrypted(key, self.secret) {
                Ok(secret) => Ok(secret),
                Err(e) => Err(e.kind()),
            },
        }
    }

    /// What a login decides before it looks at the clock: an error, admission
    /// (`None`), or the bytes of the secret that the token has to be a one-time
    /// password of.
    ///
    /// The password comes first: a stored hash that cannot be used is a hash
    /// error, a key that does not verify is unauthorized, whether or not the
    /// account asks for one-time passwords. Then, where it does, a missing token
    /// is forbidden, and a secret that cannot be read or is too short for a
    /// one-time password fails as the reading did, or as an internal error.
    pub open spec fn admission(self, password: Seq<char>, token: Option<Seq<char>>) -> Result<
        Option<Seq<u8>>,
        ErrorKind,
    > {
        match self.encryption_key(password) {
            Err(kind) => Err(kind),
            Ok(key) => match argon2_verdict(key, self.password) {
                None => Err(ErrorKind::HashError),
                Some(false) => Err(ErrorKind::Unauthorized),
                Some(true) => {
                    if !self.totp {
                        Ok(None)
                    } else if token is None {
                        Err(ErrorKind::Forbidden)
                    } else {
                        match decrypted(key, self.secret) {
                            Err(e) => Err(e.kind()),
                            Ok(secret) => {
                                if encode_utf8(secret).len() < MIN_SECRET_LENGTH {
                                    Err(ErrorKind::InternalServerError)
                                } else {
                                    Ok(Some(encode_utf8(secret)))
                                }
                            },
                        }
                    }
                },
            },
        }
    }

    /// What a login at `time`, seconds since the epoch, comes to.
    pub open spec fn login_outcome(
        self,
        password: Seq<char>,
        token: Option<Seq<char>>,
        time: u64,
    ) -> Result<(), ErrorKind> {
        match self.admission(password, token) {
            Err(kind) => Err(kind),
            Ok(None) => Ok(()),
            Ok(Some(secret)) => {
                if totp_accepts(
                    totp_algorithm(),
                    TOTP_DIGITS,
                    TOTP_SKEW,
                    TOTP_STEP,
                    secret,
                    token->Some_0,
                    time,
                ) {
                    Ok(())
                } else {
                    Err(ErrorKind::Unauthorized)
                }
            },
        }
    }
}

/// Whether a result is the one that an outcome names: success, or an error of
/// the kind.
pub open spec fn comes_to(r: Result<(), ApplicationError>, outcome: Result<(), ErrorKind>) -> bool {
    match outcome {
        Ok(_) => r is Ok,
        Err(kind) => r is Err && r->Err_0@.kind() == kind,
    }
}

/// What a login makes of the check of a one-time password against the clock:
/// an accepted token admits, a refused one is unauthorized, and a clock that
/// cannot be read is an error of its own, with the clock's message.
pub fn totp_verdict(checked: Result<bool, String>) -> (r: Result<(), ApplicationError>)
    ensures
        match checked {
            Ok(true) => r is Ok,
            Ok(false) => r is Err && r->Err_0@ == ErrorView::Unauthorized,
            Err(message) => r is Err && r->Err_0@ == ErrorView::SystemTimeError(message@),
        },
{
    match checked {
        Ok(true) => Ok(()),
        Ok(false) => Err(ApplicationError::Unauthorized),
        Err(message) => Err(ApplicationError::SystemTimeError(message)),
    }
}

impl Account {
    /// Derives the key that `password` gives with this account's salt: the key
    /// under which the secret is kept, if the password is the right one.
    pub fn obtain_encryption_key(&self, password: &str) -> (r: Result<[u8; 32], ApplicationError>)
        ensures
            match self@.encryption_key(password@) {
                Ok(key) => r is Ok && r->Ok_0@ == key,
                Err(kind) => r is Err && r->Err_0@.kind() == kind,
            },
    {
        let salt = match Salt::from_b64(self.nonce.as_str()) {
            Ok(salt) => salt,
            Err(e) => { return Err(e); },
        };
        derive_key(password, &salt)
    }

    /// Reads the account's secret with `password`. Only the right password
    /// opens it.
    pub fn read_secret(&self, password: &str) -> (r: Result<String, ApplicationError>)
        ensures
            match self@.secret_under(password@) {
                Ok(secret) => r is Ok && r->Ok_0@ == secret,
                Err(kind) => r is Err && r->Err_0@.kind() == kind,
            },
    {
        let key = match self.obtain_encryption_key(password) {
            Ok(key) => key,
            Err(e) => { return Err(e); },
        };
        decrypt(&key, self.secret.as_str())
    }

    /// Draws a new secret and keeps it encrypted under the key of `password`.
    /// Only the secret changes, and only in memory; where no key can be derived
    /// nothing changes. The new secret is of 40 hexadecimal digits, and
    /// `read_secret` with the same password reads it.
    pub fn regenerate_secret(&mut self, password: &str) -> (r: Result<(), ApplicationError>)
        ensures
            match old(self)@.encryption_key(password@) {
                Ok(key) => {
                    &&& r is Ok
                    &&& final(self)@ == (AccountView { secret: final(self)@.secret, ..old(self)@ })
                    &&& final(self)@.secret_under(password@) is Ok
                    &&& final(self)@.secret_under(password@)->Ok_0.len() == SECRET_DRAWN_LENGTH
                    &&& forall|i: int|
                        0 <= i < SECRET_DRAWN_LENGTH ==> is_hex_char(
                            #[trigger] final(self)@.secret_under(password@)->Ok_0[i],
                        )
                },
                Err(kind) => r is Err && r->Err_0@.kind() == kind && final(self)@ == old(self)@,
            },
    {
        let key = match self.obtain_encryption_key(password) {
            Ok(key) => key,
            Err(e) => { return Err(e); },
        };
        let secret = secret_generate();
        proof {
            lemma_hex_text(secret@);
        }
        self.secret = encrypt(&key, secret.as_str());
        Ok(())
    }

    /// Decides all of a login that does not need the clock.
    fn first_factor(&self, password: &str, token: Option<&str>) -> (r: Result<
        Option<Vec<u8>>,
        ApplicationError,
    >)
        ensures
            match self@.admission(password@, token_text(token)) {
                Ok(None) => r is Ok && r->Ok_0 is None,
                Ok(Some(secret)) => r is Ok && r->Ok_0 is Some && r->Ok_0->Some_0@ == secret,
                Err(kind) => r is Err && r->Err_0@.kind() == kind,
            },
            r is Err && r->Err_0@ is Forbidden ==> r->Err_0@ == ErrorView::Forbidden(totp_required()),
    {
        let key = match self.obtain_encryption_key(password) {
            Ok(key) => key,
            Err(e) => { return Err(e); },
        };
        match argon2_verify(&key, self.password.as_str()) {
            Ok(true) => {},
            Ok(false) => { return Err(ApplicationError::Unauthorized); },
            Err(message) => { return Err(ApplicationError::HashError(message)); },
        }
        if !self.totp {
            return Ok(None);
        }
        if token.is_none() {
            return Err(ApplicationError::Forbidden("TOTP is required".to_owned()));
        }
        let secret = match decrypt(&key, self.secret.as_str()) {
            Ok(secret) => secret,
            Err(e) => { return Err(e); },
        };
        let bytes = secret.as_str().as_bytes_vec();
        if bytes.len() < MIN_SECRET_LENGTH {
            return Err(ApplicationError::InternalServerError);
        }
        Ok(Some(bytes))
    }

    /// Checks a login at `time`, seconds since the epoch: the password, and
    /// where the account asks for it a one-time password of that moment.
    /// Whether the account is locked is not looked at.
    pub fn login_at(&self, password: &str, token: Option<&str>, time: u64) -> (r: Result<
        (),
        ApplicationError,
    >)
        ensures
            comes_to(r, self@.login_outcome(password@, token_text(token), time)),
            r is Err && r->Err_0@ is Forbidden ==> r->Err_0@ == ErrorView::Forbidden(totp_required()),
    {
        let secret = match self.first_factor(password, token) {
            Ok(Some(secret)) => secret,
            Ok(None) => { return Ok(()); },
            Err(e) => { return Err(e); },
        };
        let token = match token {
            Some(token) => token,
            None => { return Err(ApplicationError::Unauthorized); },
        };
        assert(TOTP_SKEW <= time / TOTP_STEP && (time / TOTP_STEP + TOTP_SKEW) * TOTP_STEP <= u64::MAX);
        match totp_check(Algorithm::SHA256, TOTP_DIGITS, TOTP_SKEW, TOTP_STEP, secret, token, time) {
            Some(true) => Ok(()),
            _ => Err(ApplicationError::Unauthorized),
        }
    }

    /// Checks a login now. The outcome is that of `login_at` for the moment
    /// of the call, whatever that is, or the error of a clock that cannot be
    /// read: all that `login_at` decides without the clock is decided here in
    /// the same way, and only a token that reaches the one-time password check
    /// is judged by the moment. Whether the account is locked is not looked
    /// at.
    pub fn login(&self, password: &str, token: Option<&str>) -> (r: Result<(), ApplicationError>)
        ensures
            match self@.admission(password@, token_text(token)) {
                Ok(None) => r is Ok,
                Ok(Some(_)) => r is Ok || r->Err_0@ == ErrorView::Unauthorized
                    || r->Err_0@ is SystemTimeError,
                Err(kind) => r is Err && r->Err_0@.kind() == kind,
            },
            r is Err && r->Err_0@ is Forbidden ==> r->Err_0@ == ErrorView::Forbidden(totp_required()),
            (r is Err && r->Err_0@ is SystemTimeError) || exists|time: u64|
                comes_to(r, #[trigger] self@.login_outcome(password@, token_text(token), time)),
    {
        let ghost timeless = self@.login_outcome(password@, token_text(token), 0);
        let secret = match self.first_factor(password, token) {
            Ok(Some(secret)) => secret,
            Ok(None) => {
                assert(comes_to(Ok(()), timeless));
                return Ok(());
            },
            Err(e) => {
                assert(comes_to(Err(e), timeless));
                return Err(e);
            },
        };
        let token = match token {
            Some(token) => token,
            None => { return Err(ApplicationError::Unauthorized); },
        };
        let ghost bytes = secret@;
        let checked = totp_check_current(
            Algorithm::SHA256,
            TOTP_DIGITS,
            TOTP_SKEW,
            TOTP_STEP,
            secret,
            token,
        );
        let r = totp_verdict(checked);
        proof {
            if checked is Ok {
                let time = choose|time: u64|
                    checked->Ok_0 == totp_accepts(
                        Algorithm::SHA256,
                        TOTP_DIGITS,
                        TOTP_SKEW,
                        TOTP_STEP,
                        bytes,
                        token@,
                        time,
                    );
                assert(comes_to(r, self@.login_outcome(password@, Some(token@), time)));
            }
        }
        r
    }
}

impl Account {
    /// Starts a session for this account. The commands are to be carried out
    /// in their order; they leave the account with this session and no other.
    pub fn start_session(&self) -> (r: (Session, Vec<SessionCommand>))
        ensures
            r.0@.target == SessionTypeView::Human(self@.id),
            r.0@.exp == r.0@.iat + SESSION_LENGTH,
            r.0@.refresh_exp == r.0@.iat + REFRESH_LENGTH,
            r.0@.id.table == session_table(),
            r.0@.id.id.len() == SESSION_KEY_LENGTH,
            r.0@.refresh_token.len() == REFRESH_TOKEN_LENGTH,
            command_views(r.1@) == r.0@.start_commands(),
    {
        Session::init(SessionType::Human(self.id.clone()))
    }

    /// The text by which the sessions of this account are found in storage:
    /// the written form of its identifier, which is the text of the target of
    /// each of its sessions.
    pub fn fetch_session(&self) -> (target: String)
        ensures
            target@ == SessionTypeView::Human(self@.id).text(),
    {
        self.id.to_string()
    }

    /// Logs the account out, given the session that was found for it: the
    /// session is to be ended. Without a session there is nothing to log out
    /// of, which is unauthorized.
    pub fn logout(found: Option<Session>) -> (r: Result<SessionCommand, ApplicationError>)
        ensures
            match found {
                Some(session) => r is Ok && r->Ok_0@ == SessionCommandView::Delete(session@.id),
                None => r is Err && r->Err_0@ == ErrorView::Unauthorized,
            },
    {
        match found {
            Some(session) => Ok(session.end()),
            None => Err(ApplicationError::Unauthorized),
        }
    }
}

/// Hexadecimal text is as many bytes as characters.
proof fn lemma_hex_text(text: Seq<char>)
    requires
        forall|i: int| 0 <= i < text.len() ==> is_hex_char(#[trigger] text[i]),
    ensures
        encode_utf8(text).len() == text.len(),
{
    assert(is_ascii_chars(text)) by {
        assert forall|i: int| 0 <= i < text.len() implies '\0' <= #[trigger] text[i] <= '\x7f' by {
            assert(is_hex_char(text[i]));
        }
    }
    is_ascii_chars_encode_utf8(text);
}

/// The right password logs in to an account that asks for no one-time
/// password, whatever token comes with it and whenever.
pub proof fn lemma_right_password_logs_in(
    account: AccountView,
    password: Seq<char>,
    token: Option<Seq<char>>,
    time: u64,
)
    requires
        password_verifies(account.nonce, account.password, password),
        !account.totp,
    ensures
        account.admission(password, token) == Ok::<Option<Seq<u8>>, ErrorKind>(None),
        account.login_outcome(password, token, time) is Ok,
{
}

/// A password whose key the stored hash refuses is unauthorized, whether or not
/// the account asks for one-time passwords, whatever token comes with it and
/// whenever.
pub proof fn lemma_wrong_password_is_unauthorized(
    account: AccountView,
    password: Seq<char>,
    token: Option<Seq<char>>,
    time: u64,
)
    requires
        account.encryption_key(password) is Ok,
        argon2_verdict(account.encryption_key(password)->Ok_0, account.password) == Some(false),
    ensures
        account.admission(password, token) == Err::<Option<Seq<u8>>, ErrorKind>(
            ErrorKind::Unauthorized,
        ),
        account.login_outcome(password, token, time) == Err::<(), ErrorKind>(ErrorKind::Unauthorized),
{
}

/// Where the account asks for one-time passwords, the right password without
/// a token is forbidden, whenever.
pub proof fn lemma_missing_token_is_forbidden(account: AccountView, password: Seq<char>, time: u64)
    requires
        password_verifies(account.nonce, account.password, password),
        account.totp,
    ensures
        account.admission(password, None) == Err::<Option<Seq<u8>>, ErrorKind>(ErrorKind::Forbidden),
        account.login_outcome(password, None, time) == Err::<(), ErrorKind>(ErrorKind::Forbidden),
{
}

/// Where the account asks for one-time passwords, the right password with a
/// token logs in at exactly the moments at which the token is a one-time
/// password of the account's secret; at every other moment it is
/// unauthorized. The secret has to be one that the password reads and that is
/// long enough for one-time passwords.
pub proof fn lemma_second_factor(
    account: AccountView,
    password: Seq<char>,
    token: Seq<char>,
    time: u64,
)
    requires
        password_verifies(account.nonce, account.password, password),
        account.totp,
        account.secret_under(password) is Ok,
        encode_utf8(account.secret_under(password)->Ok_0).len() >= MIN_SECRET_LENGTH,
    ensures
        account.login_outcome(password, Some(token), time) is Ok <==> totp_accepts(
            totp_algorithm(),
            TOTP_DIGITS,
            TOTP_SKEW,
            TOTP_STEP,
            encode_utf8(account.secret_under(password)->Ok_0),
            token,
            time,
        ),
        !(account.login_outcome(password, Some(token), time) is Ok) ==> account.login_outcome(
            password,
            Some(token),
            time,
        ) == Err::<(), ErrorKind>(ErrorKind::Unauthorized),
{
}

} // verus!
