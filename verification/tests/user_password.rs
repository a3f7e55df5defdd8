use warp_server_boilerplate::domain::user_password::{secret_key_or_default, UserPassword};
use warp_server_boilerplate::errors::Errors;

fn key() -> String {
    secret_key_or_default(None)
}

#[test]
fn a_valid_password_is_parsed_successfully() {
    let password = "TestPassword#123".to_string();
    assert!(UserPassword::parse(&password, &key()).is_ok());
}

#[test]
fn a_256_grapheme_long_password_is_valid() {
    let password = "a̐".repeat(256);
    assert!(UserPassword::parse(&password, &key()).is_ok());
}

#[test]
fn a_password_longer_than_256_graphemes_is_rejected() {
    let password = "a".repeat(257);
    assert!(UserPassword::parse(&password, &key()).is_err());
}

#[test]
fn a_password_shorter_than_8_graphemes_is_rejected() {
    let password = "a".repeat(7);
    assert!(UserPassword::parse(&password, &key()).is_err());
}

#[test]
fn whitespace_only_names_are_rejected() {
    let password = " ".to_string();
    assert!(UserPassword::parse(&password, &key()).is_err());
}

#[test]
fn user_password_empty_string_is_rejected() {
    let password = "".to_string();
    assert!(UserPassword::parse(&password, &key()).is_err());
}

#[test]
fn valid_password_verified_successfully() {
    let password = "TestPassword#123".to_string();
    let hash = UserPassword::parse(&password, &key()).expect("Password parsing failed.");
    assert_eq!(UserPassword::verify(&hash.0, &password, &key()).expect("Password verification failed."), true);
}

#[test]
fn invalid_password_verification_return_false() {
    let password = "TestPassword#123".to_string();
    let invalid_password = "a̐".repeat(8);
    let hash = UserPassword::parse(&password, &key()).expect("Password parsing failed.");
    assert_eq!(UserPassword::verify(&hash.0, &invalid_password, &key()).expect("Password verification failed."), false);
}

#[test]
fn default_secret_key_is_used_when_none_is_configured() {
    assert_eq!(secret_key_or_default(None), "0123".repeat(8));
    assert_eq!(secret_key_or_default(Some("s3cret".to_string())), "s3cret");
}

#[test]
fn eight_and_256_graphemes_are_the_bounds() {
    assert!(UserPassword::parse(&"a".repeat(8), &key()).is_ok());
    assert!(UserPassword::parse(&"a".repeat(256), &key()).is_ok());
    assert!(UserPassword::parse(&"a̐".repeat(7), &key()).is_err());
    assert!(UserPassword::parse(&"a̐".repeat(257), &key()).is_err());
}

#[test]
fn padded_password_with_content_is_not_blank() {
    assert!(UserPassword::parse("   abc   ", &key()).is_ok());
    assert!(UserPassword::parse("\t\n \r\t\n \r", &key()).is_err());
}

#[test]
fn refusal_reason_is_password_not_valid() {
    assert!(matches!(UserPassword::parse("short", &key()), Err(Errors::PasswordNotValid)));
}

#[test]
fn requirements_are_checked_on_counts() {
    assert!(UserPassword::requirements_met(false, 8));
    assert!(UserPassword::requirements_met(false, 256));
    assert!(!UserPassword::requirements_met(false, 7));
    assert!(!UserPassword::requirements_met(false, 257));
    assert!(!UserPassword::requirements_met(true, 10));
}

#[test]
fn hash_with_fixed_salt_is_deterministic_and_encoded() {
    let salt = [7u8; 32];
    let a = UserPassword::parse_with_salt("TestPassword#123", &salt, &key()).expect("parse");
    let b = UserPassword::parse_with_salt("TestPassword#123", &salt, &key()).expect("parse");
    assert_eq!(a.0, b.0);
    assert!(a.0.starts_with("$argon2i$v=19$m=4096,t=3,p=1$"));
    assert_ne!(a.0, "TestPassword#123");
    assert_eq!(a.as_str(), a.0.as_str());
}

#[test]
fn hash_depends_on_the_secret_key() {
    let salt = [7u8; 32];
    let a = UserPassword::parse_with_salt("TestPassword#123", &salt, &key()).expect("parse");
    assert_eq!(UserPassword::verify(&a.0, "TestPassword#123", "another key").expect("verify"), false);
}

#[test]
fn a_malformed_hash_cannot_be_checked() {
    assert!(matches!(UserPassword::verify("not a hash", "TestPassword#123", &key()), Err(Errors::PasswordEncodeFailed(_))));
}

#[test]
fn unicode_white_space_is_blank() {
    assert!(matches!(UserPassword::parse(&"\u{3000}".repeat(8), &key()), Err(Errors::PasswordNotValid)));
    assert!(matches!(UserPassword::parse(&"\u{a0}\u{2009}".repeat(5), &key()), Err(Errors::PasswordNotValid)));
    assert!(UserPassword::parse(&"\u{200b}".repeat(8), &key()).is_ok());
}

#[test]
fn any_password_can_be_checked_against_a_parsed_hash() {
    let p = UserPassword::parse("TestPassword#123", &key()).expect("parse");
    assert!(p.0.starts_with("$argon2i$v=19$m=4096,t=3,p=1$"));
    assert_eq!(UserPassword::verify(&p.0, "", "other").expect("verify"), false);
}
