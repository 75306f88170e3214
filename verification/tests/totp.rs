use twitter_auth::error::TwitterError;
use twitter_auth::totp::{current_totp, totp_at, totp_for, DIGITS, SKEW, STEP};

// The 20-byte secret of the reference vectors for HMAC-SHA1.
const SECRET: &str = "12345678901234567890";

#[test]
fn parameters_are_six_digits_one_skew_thirty_seconds() {
    assert_eq!(DIGITS, 6);
    assert_eq!(SKEW, 1);
    assert_eq!(STEP, 30);
}

#[test]
fn reference_vectors_give_the_last_six_digits() {
    assert_eq!(totp_at(SECRET, 59), Ok("287082".to_string()));
    assert_eq!(totp_at(SECRET, 1111111109), Ok("081804".to_string()));
    assert_eq!(totp_at(SECRET, 1111111111), Ok("050471".to_string()));
    assert_eq!(totp_at(SECRET, 1234567890), Ok("005924".to_string()));
    assert_eq!(totp_at(SECRET, 2000000000), Ok("279037".to_string()));
    assert_eq!(totp_at(SECRET, 20000000000), Ok("353130".to_string()));
}

#[test]
fn codes_change_with_the_step_not_within_it() {
    assert_eq!(totp_at(SECRET, 30), totp_at(SECRET, 59));
    assert_ne!(totp_at(SECRET, 59), totp_at(SECRET, 60));
}

#[test]
fn codes_depend_on_the_secret() {
    assert_ne!(totp_at(SECRET, 59), totp_at("1234567890123456789A", 59));
}

#[test]
fn a_secret_under_sixteen_bytes_is_refused() {
    for secret in ["", "short", "123456789012345"] {
        match totp_at(secret, 59) {
            Err(TwitterError::Auth(message)) => {
                assert!(message.starts_with("Failed to create TOTP: "), "{}", message);
                assert!(message.len() > "Failed to create TOTP: ".len());
            }
            other => panic!("unexpected: {:?}", other),
        }
        assert!(matches!(current_totp(secret), Err(TwitterError::Auth(_))));
    }
    assert!(totp_at("1234567890123456", 59).is_ok());
}

#[test]
fn secret_length_counts_bytes() {
    // Eight characters of two bytes each.
    assert!(totp_at("\u{e9}\u{e9}\u{e9}\u{e9}\u{e9}\u{e9}\u{e9}\u{e9}", 59).is_ok());
}

#[test]
fn current_code_has_six_digits() {
    let code = current_totp(SECRET).unwrap();
    assert_eq!(code.len(), 6);
    assert!(code.chars().all(|c| c.is_ascii_digit()));
}

#[test]
fn codes_are_six_digits_at_any_time() {
    for time in [0, 1, 29, 30, 59, 1_700_000_000, u64::MAX] {
        let code = totp_at(SECRET, time).unwrap();
        assert_eq!(code.len(), 6, "{}", time);
        assert!(code.chars().all(|c| c.is_ascii_digit()), "{}", time);
    }
}

#[test]
fn a_clock_reading_gives_its_code() {
    assert_eq!(totp_for(SECRET, Some(59)), Ok("287082".to_string()));
    assert_eq!(totp_for(SECRET, Some(30)), totp_at(SECRET, 59));
}

#[test]
fn a_clock_before_the_epoch_is_an_error() {
    assert_eq!(
        totp_for(SECRET, None),
        Err(TwitterError::Auth(
            "Failed to generate TOTP code: second time provided was later than self".to_string()
        ))
    );
}

#[test]
fn a_short_secret_is_refused_whatever_the_clock_says() {
    for now in [None, Some(59)] {
        match totp_for("short", now) {
            Err(TwitterError::Auth(message)) => {
                assert!(message.starts_with("Failed to create TOTP: "), "{}", message)
            }
            other => panic!("unexpected: {:?}", other),
        }
    }
}
