//! Time-based one-time codes for two-factor challenges: six digits,
//! HMAC-SHA1, a step of thirty seconds, computed by `totp_rs`.

use crate::clock::unix_seconds;
use crate::error::TwitterError;
use crate::text::{prefixed, starts_with};
use vstd::prelude::*;
use vstd::utf8::encode_utf8;

verus! {

/// The number of digits of a code.
pub const DIGITS: usize = 6;

/// The number of steps of clock skew that a check of a code would allow.
pub const SKEW: u8 = 1;

/// The length of a time step in seconds.
pub const STEP: u64 = 30;

/// `totp_rs::TotpUrlError`, the error of `totp_rs::TOTP::new`.
#[verifier::external_type_specification]
#[verifier::external_body]
pub struct ExTotpUrlError(totp_rs::TotpUrlError);

/// The code that `totp_rs::TOTP::generate` gives from a SHA-1 generator
/// with `digits` digits and the secret `secret` for the time step `counter`:
/// the generator reads the time only as the number of whole steps since the
/// epoch.
pub uninterp spec fn totp_sha1(digits: int, secret: Seq<u8>, counter: int) -> Seq<char>;

/// A text of decimal digits only.
pub open spec fn is_digits(text: Seq<char>) -> bool {
    forall|i: int| 0 <= i < text.len() ==> '0' <= #[trigger] text[i] <= '9'
}

/// A secret from which a generator can be made: at least 128 bits.
pub open spec fn usable_secret(secret: Seq<u8>) -> bool {
    secret.len() >= 16
}

/// The code for the secret `secret` at the time `time`, in seconds since
/// the epoch: that of the step of thirty seconds in which the time lies.
pub open spec fn code_at(secret: Seq<u8>, time: int) -> Seq<char> {
    totp_sha1(DIGITS as int, secret, time / (STEP as int))
}

/// `totp_rs::TOTP::new` with SHA-1, then `generate` on the generator. `new`
/// refuses a number of digits outside 6 to 8 and a secret under 16 bytes,
/// and nothing else. `generate` divides the time by the step, signs the
/// quotient, and writes the last `digits` decimal digits of a number taken
/// from the signature, with leading zeros. A step of zero is left out:
/// `generate` divides by it.
#[verifier::external_body]
fn sha1_code(digits: usize, skew: u8, step: u64, secret: Vec<u8>, time: u64) -> (made: Result<
    String,
    totp_rs::TotpUrlError,
>)
    requires
        step > 0,
    ensures
        made is Ok <==> (6 <= digits <= 8 && usable_secret(secret@)),
        made matches Ok(code) ==> code@ == totp_sha1(
            digits as int,
            secret@,
            time as int / step as int,
        ),
        made matches Ok(code) ==> code@.len() == digits,
        made matches Ok(code) ==> is_digits(code@),
{
    Ok(totp_rs::TOTP::new(totp_rs::Algorithm::SHA1, digits, skew, step, secret)?.generate(time))
}

/// The text that `totp_rs::TotpUrlError` displays.
#[verifier::external_body]
fn totp_error_text(error: &totp_rs::TotpUrlError) -> String {
    error.to_string()
}

/// An error was raised because no generator could be made from the secret.
pub open spec fn is_creation_failure(error: TwitterError) -> bool {
    error is Auth && starts_with(error.text(), "Failed to create TOTP: "@)
}

/// An error was raised because the clock could not be read.
pub open spec fn is_clock_failure(error: TwitterError) -> bool {
    error is Auth && starts_with(error.text(), "Failed to generate TOTP code: "@)
}

/// The code for `secret` at the time `time`, in seconds since the epoch:
/// six decimal digits.
///
/// Succeeds exactly when the secret has at least 16 bytes; a shorter one
/// gives an authentication error that begins `Failed to create TOTP: `.
pub fn totp_at(secret: &str, time: u64) -> (result: Result<String, TwitterError>)
    ensures
        match result {
            Ok(code) => {
                &&& usable_secret(encode_utf8(secret@))
                &&& code@ == code_at(encode_utf8(secret@), time as int)
                &&& code@.len() == 6
                &&& is_digits(code@)
            },
            Err(error) => !usable_secret(encode_utf8(secret@)) && is_creation_failure(error),
        },
{
    match sha1_code(DIGITS, SKEW, STEP, secret.as_bytes_vec(), time) {
        Ok(code) => Ok(code),
        Err(error) => Err(
            TwitterError::Auth(
                prefixed("Failed to create TOTP: ", totp_error_text(&error).as_str()),
            ),
        ),
    }
}

/// The code for `secret` at the time that a reading of the clock gave:
/// `None` stands for a clock that stands before the epoch.
///
/// A secret under 16 bytes gives an authentication error that begins
/// `Failed to create TOTP: `, whatever the clock says. Otherwise the result
/// is the code of the time read, or, without one, an authentication error
/// with the message
/// `Failed to generate TOTP code: second time provided was later than self`.
pub fn totp_for(secret: &str, now: Option<u64>) -> (result: Result<String, TwitterError>)
    ensures
        match result {
            Ok(code) => {
                &&& usable_secret(encode_utf8(secret@))
                &&& now matches Some(time) && code@ == code_at(encode_utf8(secret@), time as int)
                &&& code@.len() == 6
                &&& is_digits(code@)
            },
            Err(error) => if usable_secret(encode_utf8(secret@)) {
                now is None && is_clock_failure(error) && error.text()
                    == "Failed to generate TOTP code: "@
                    + "second time provided was later than self"@
            } else {
                is_creation_failure(error)
            },
        },
{
    match now {
        Some(time) => totp_at(secret, time),
        None => match totp_at(secret, 0) {
            Ok(_) => Err(
                TwitterError::Auth(
                    prefixed(
                        "Failed to generate TOTP code: ",
                        "second time provided was later than self",
                    ),
                ),
            ),
            Err(error) => Err(error),
        },
    }
}

/// The code for `secret` at the present time: six decimal digits, made
/// afresh from the clock at every call.
///
/// A secret under 16 bytes gives an authentication error that begins
/// `Failed to create TOTP: `, whatever the clock says. Otherwise the result
/// is the code of some point in time, or, where the clock stands before the
/// epoch, an authentication error that begins
/// `Failed to generate TOTP code: `.
pub fn current_totp(secret: &str) -> (result: Result<String, TwitterError>)
    ensures
        match result {
            Ok(code) => {
                &&& usable_secret(encode_utf8(secret@))
                &&& exists|time: u64|
                    code@ == #[trigger] code_at(encode_utf8(secret@), time as int)
                &&& code@.len() == 6
                &&& is_digits(code@)
            },
            Err(error) => if usable_secret(encode_utf8(secret@)) {
                is_clock_failure(error)
            } else {
                is_creation_failure(error)
            },
        },
{
    match unix_seconds() {
        Some(time) => {
            let result = totp_for(secret, Some(time));
            proof {
                if result is Ok {
                    assert(result->Ok_0@ == code_at(encode_utf8(secret@), time as int));
                }
            }
            result
        },
        None => totp_for(secret, None),
    }
}

/// The code depends on the time only through the step of thirty seconds:
/// two times in one step have the same code.
pub proof fn lemma_code_constant_within_step(secret: Seq<u8>, first: int, second: int)
    requires
        0 <= first,
        0 <= second,
        first / 30 == second / 30,
    ensures
        code_at(secret, first) == code_at(secret, second),
{
}

} // verus!
