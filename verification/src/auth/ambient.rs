//! The clock and the random texts, taken on trust from `chrono` and `nanoid`.
//!
//! Nothing in this file is proved. What comes back differs from call to call,
//! so each contract says only what holds of every answer.

use vstd::prelude::*;

verus! {

/// A bound on the seconds since the epoch that `chrono` can name: it counts
/// the days of a date in 32 bits.
pub const CLOCK_END: i64 = 0x8000_0000 * 86_400;

/// The most characters an alphabet for random texts can hold.
pub const MAX_ALPHABET: usize = 255;

/// The longest random text that can be asked for.
pub const MAX_RANDOM_LENGTH: usize = usize::MAX / 8;

/// The characters of the alphabet that `nanoid` draws from by default.
pub open spec fn is_url_safe_char(c: char) -> bool {
    ||| 'a' <= c <= 'z'
    ||| 'A' <= c <= 'Z'
    ||| '0' <= c <= '9'
    ||| c == '_'
    ||| c == '-'
}

/// `Utc::now().timestamp()`: the seconds since the epoch, by the system's
/// clock. It panics where that clock stands before the epoch or behind the last
/// day that `chrono` can name.
#[verifier::external_body]
pub(crate) fn utc_timestamp() -> (now: i64)
    ensures
        now < CLOCK_END,
{
    chrono::Utc::now().timestamp()
}

/// `nanoid::alphabet::SAFE`: the 64 characters that `nanoid` draws from by
/// default.
#[verifier::external_body]
pub(crate) fn url_safe_alphabet() -> (r: [char; 64])
    ensures
        forall|i: int| 0 <= i < 64 ==> is_url_safe_char(#[trigger] r@[i]),
{
    nanoid::alphabet::SAFE
}

/// `nanoid::format` with the generator `nanoid::rngs::default`: a text of
/// `size` characters, each drawn from `alphabet`. The library counts the
/// length in bytes, does not return for a size of 0 or an empty alphabet, and
/// panics on an alphabet of more than 255: `requires` leaves out those, and
/// the alphabets that hold a character of more than one byte.
#[verifier::external_body]
pub(crate) fn random_text(alphabet: &[char], size: usize) -> (r: String)
    requires
        0 < size <= MAX_RANDOM_LENGTH,
        0 < alphabet@.len() <= MAX_ALPHABET,
        forall|i: int| 0 <= i < alphabet@.len() ==> '\0' <= #[trigger] alphabet@[i] <= '\x7f',
    ensures
        r@.len() == size,
        forall|i: int| 0 <= i < r@.len() ==> alphabet@.contains(#[trigger] r@[i]),
{
    nanoid::format(nanoid::rngs::default, alphabet, size)
}

} // verus!
