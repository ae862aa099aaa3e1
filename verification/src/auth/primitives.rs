//! What this crate takes on trust from the cryptographic libraries it calls:
//! Argon2id from `argon2`, XChaCha20-Poly1305 from `chacha20poly1305`, Base64
//! from `openssl`, and UTF-8 decoding from the standard library.
//!
//! Nothing here is proved. Each function below makes one call and says what the
//! called library documents of it; a result that takes pages to define gets a
//! name, and the contract says that the call returns what the name stands for.

use argon2::password_hash::PasswordHasher;
use argon2::password_hash::PasswordVerifier;
use chacha20poly1305::aead::Aead;
use chacha20poly1305::aead::AeadCore;
use chacha20poly1305::aead::KeyInit;
use vstd::prelude::*;
use vstd::utf8::decode_utf8;
use vstd::utf8::encode_utf8;
use vstd::utf8::valid_utf8;

verus! {

/// The 32 bytes that Argon2id, version 0x13 with the default parameters of the
/// `argon2` crate, derives from a password and a salt.
pub uninterp spec fn argon2id(password: Seq<u8>, salt: Seq<u8>) -> Seq<u8>;

/// What the Argon2 verifier says of a key and an encoded hash: `Some(true)` where
/// the hash is one of that key, `Some(false)` where the verifier reports a
/// mismatch, `None` where it fails in any other way, as on text that is no
/// encoded hash.
pub uninterp spec fn argon2_verdict(key: Seq<u8>, hash: Seq<char>) -> Option<bool>;

/// The ciphertext and tag that XChaCha20-Poly1305 makes of a plaintext under a
/// key and a nonce, with no associated data.
pub uninterp spec fn xchacha20poly1305_seal(key: Seq<u8>, nonce: Seq<u8>, plaintext: Seq<u8>) -> Seq<u8>;

/// The plaintext that XChaCha20-Poly1305 recovers from a ciphertext with its tag,
/// or `None` where the tag does not authenticate it under that key and nonce.
pub uninterp spec fn xchacha20poly1305_open(key: Seq<u8>, nonce: Seq<u8>, sealed: Seq<u8>) -> Option<Seq<u8>>;

/// The Base64 text of some bytes, in one block with padding.
pub uninterp spec fn base64_text(bytes: Seq<u8>) -> Seq<char>;

/// The bytes that a Base64 text stands for, or `None` where it is not Base64.
pub uninterp spec fn base64_bytes(text: Seq<char>) -> Option<Seq<u8>>;

/// The longest password, and the longest salt, that Argon2 takes.
pub const ARGON2_MAX_INPUT: usize = 0xFFFF_FFFF;

/// The shortest salt that Argon2 takes.
pub const ARGON2_MIN_SALT: usize = 8;

/// The shortest text of a PHC salt.
pub const SALT_MIN_LENGTH: usize = 4;

/// The longest text of a PHC salt.
pub const SALT_MAX_LENGTH: usize = 64;

/// The length of the text of a salt that was drawn here: 16 bytes in Base64
/// without padding.
pub const SALT_DRAWN_LENGTH: usize = 22;

/// The most bytes that can be written as one Base64 block.
pub const BASE64_MAX_INPUT: usize = 1_610_612_733;

/// The longest text that the Base64 decoder takes, in bytes.
pub const BASE64_MAX_TEXT: usize = 0x7FFF_FFFF;

/// The bytes that the cipher adds to a plaintext: its tag.
pub const TAG_LENGTH: usize = 16;

/// The most bytes that the cipher takes at once.
pub const CIPHER_MAX_INPUT: usize = 0xFFFF_FFFF;

/// The characters of a PHC salt.
pub open spec fn is_salt_char(c: char) -> bool {
    ||| 'a' <= c <= 'z'
    ||| 'A' <= c <= 'Z'
    ||| '0' <= c <= '9'
    ||| c == '/'
    ||| c == '+'
    ||| c == '.'
    ||| c == '-'
}

/// Whether a text can serve as a PHC salt: 4 to 64 characters of the salt's
/// alphabet.
pub open spec fn is_salt_text(s: Seq<char>) -> bool {
    &&& SALT_MIN_LENGTH <= s.len() <= SALT_MAX_LENGTH
    &&& forall|i: int| 0 <= i < s.len() ==> is_salt_char(#[trigger] s[i])
}

/// The characters of Base64 text.
pub open spec fn is_base64_char(c: char) -> bool {
    ||| 'a' <= c <= 'z'
    ||| 'A' <= c <= 'Z'
    ||| '0' <= c <= '9'
    ||| c == '/'
    ||| c == '+'
    ||| c == '='
}

/// The number of characters that Base64 makes of `n` bytes.
pub open spec fn base64_length(n: nat) -> nat {
    4 * ((n + 2) / 3)
}

/// `Argon2::default().hash_password_into`: fills `out` with the derived key and
/// says whether it did. It refuses a password or a salt of more than
/// `ARGON2_MAX_INPUT` bytes and a salt of fewer than `ARGON2_MIN_SALT`, and
/// nothing else.
#[verifier::external_body]
pub(crate) fn argon2id_into(password: &[u8], salt: &[u8], out: &mut [u8; 32]) -> (done: bool)
    ensures
        done == (password@.len() <= ARGON2_MAX_INPUT && ARGON2_MIN_SALT <= salt@.len()
            <= ARGON2_MAX_INPUT),
        done ==> final(out)@ == argon2id(password@, salt@),
{
    argon2::Argon2::default().hash_password_into(password, salt, out).is_ok()
}

/// `SaltString::from_b64`: accepts exactly the texts of `is_salt_text` and keeps
/// an accepted text as it is. The error is the library's message.
#[verifier::external_body]
pub(crate) fn salt_from_b64(text: &str) -> (r: Result<String, String>)
    ensures
        r is Ok <==> is_salt_text(text@),
        r is Ok ==> r->Ok_0@ == text@,
{
    match argon2::password_hash::SaltString::from_b64(text) {
        Ok(salt) => Ok(salt.as_str().to_owned()),
        Err(e) => Err(e.to_string()),
    }
}

/// `SaltString::generate` with the operating system's generator: the text of 16
/// random bytes, which is a salt text of 22 characters.
#[verifier::external_body]
pub(crate) fn salt_generate() -> (r: String)
    ensures
        is_salt_text(r@),
        r@.len() == SALT_DRAWN_LENGTH,
{
    argon2::password_hash::SaltString::generate(&mut chacha20poly1305::aead::OsRng).as_str().to_owned()
}

/// `SaltString::generate`, then `Argon2::default().hash_password` under that
/// salt, written as a PHC string. Which salt is drawn is open; whatever it is,
/// the verifier accepts the key against the string.
#[verifier::external_body]
pub(crate) fn argon2_hash_salted(key: &[u8; 32]) -> (r: String)
    ensures
        argon2_verdict(key@, r@) == Some(true),
{
    let salt = argon2::password_hash::SaltString::generate(&mut chacha20poly1305::aead::OsRng);
    argon2::Argon2::default().hash_password(key, &salt).unwrap().to_string()
}

/// `PasswordHash::new`, then `Argon2::default().verify_password`: `Ok(true)`
/// where the key verifies, `Ok(false)` where the verifier reports a password
/// mismatch, and the library's message for every other failure.
#[verifier::external_body]
pub(crate) fn argon2_verify(key: &[u8; 32], hash: &str) -> (r: Result<bool, String>)
    ensures
        match r {
            Ok(accepted) => argon2_verdict(key@, hash@) == Some(accepted),
            Err(_) => argon2_verdict(key@, hash@) is None,
        },
{
    let checked = match argon2::password_hash::PasswordHash::new(hash) {
        Ok(parsed) => argon2::Argon2::default().verify_password(key, &parsed),
        Err(e) => Err(e),
    };
    match checked {
        Ok(()) => Ok(true),
        Err(argon2::password_hash::Error::Password) => Ok(false),
        Err(e) => Err(e.to_string()),
    }
}

/// `XChaCha20Poly1305::generate_nonce` with the operating system's generator: 24
/// random bytes.
#[verifier::external_body]
pub(crate) fn nonce_generate() -> (r: [u8; 24]) {
    chacha20poly1305::XChaCha20Poly1305::generate_nonce(&mut chacha20poly1305::aead::OsRng).into()
}

/// `XChaCha20Poly1305::encrypt`: the ciphertext with its 16-byte tag behind it,
/// which the same key and nonce open again to the plaintext. The cipher refuses
/// 64 * (2^32 - 1) bytes and more, and a buffer cannot hold more than
/// `isize::MAX`: `requires` stays below both.
#[verifier::external_body]
pub(crate) fn xchacha_seal(key: &[u8; 32], nonce: &[u8; 24], plaintext: &[u8]) -> (r: Option<Vec<u8>>)
    requires
        plaintext@.len() <= CIPHER_MAX_INPUT,
        plaintext@.len() + TAG_LENGTH <= isize::MAX,
    ensures
        r is Some,
        r->Some_0@ == xchacha20poly1305_seal(key@, nonce@, plaintext@),
        r->Some_0@.len() == plaintext@.len() + TAG_LENGTH,
        xchacha20poly1305_open(key@, nonce@, r->Some_0@) == Some(plaintext@),
{
    let cipher = chacha20poly1305::XChaCha20Poly1305::new(chacha20poly1305::Key::from_slice(key));
    cipher.encrypt(chacha20poly1305::XNonce::from_slice(nonce), plaintext).ok()
}

/// `XChaCha20Poly1305::decrypt`: the plaintext where the tag authenticates the
/// ciphertext, else nothing. The nonce has to be of 24 bytes.
#[verifier::external_body]
pub(crate) fn xchacha_open(key: &[u8; 32], nonce: &[u8], sealed: &[u8]) -> (r: Option<Vec<u8>>)
    requires
        nonce@.len() == 24,
    ensures
        match r {
            Some(plaintext) => xchacha20poly1305_open(key@, nonce@, sealed@) == Some(plaintext@),
            None => xchacha20poly1305_open(key@, nonce@, sealed@) is None,
        },
{
    let cipher = chacha20poly1305::XChaCha20Poly1305::new(chacha20poly1305::Key::from_slice(key));
    cipher.decrypt(chacha20poly1305::XNonce::from_slice(nonce), sealed).ok()
}

/// `openssl::base64::encode_block`: four characters of the Base64 alphabet for
/// every three bytes begun, which `decode_block` reads back to the same bytes.
/// It panics where the length of the text does not fit a C `int`.
#[verifier::external_body]
pub(crate) fn base64_encode(bytes: &[u8]) -> (r: String)
    requires
        bytes@.len() <= BASE64_MAX_INPUT,
    ensures
        r@ == base64_text(bytes@),
        r@.len() == base64_length(bytes@.len()),
        forall|i: int| 0 <= i < r@.len() ==> is_base64_char(#[trigger] r@[i]),
        base64_bytes(r@) == Some(bytes@),
{
    openssl::base64::encode_block(bytes)
}

/// `openssl::base64::decode_block`: the bytes of a Base64 text, or nothing where
/// the decoder refuses it. It panics on a text of more bytes than a C `int`
/// counts.
#[verifier::external_body]
pub(crate) fn base64_decode(text: &str) -> (r: Option<Vec<u8>>)
    requires
        encode_utf8(text@).len() <= BASE64_MAX_TEXT,
    ensures
        match r {
            Some(bytes) => base64_bytes(text@) == Some(bytes@),
            None => base64_bytes(text@) is None,
        },
{
    openssl::base64::decode_block(text).ok()
}

/// `String::from_utf8`: the text that the bytes encode, where they are UTF-8.
#[verifier::external_body]
pub(crate) fn utf8_text(bytes: Vec<u8>) -> (r: Option<String>)
    ensures
        r is Some <==> valid_utf8(bytes@),
        r is Some ==> r->Some_0@ == decode_utf8(bytes@),
{
    String::from_utf8(bytes).ok()
}

} // verus!
