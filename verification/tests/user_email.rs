use warp_server_boilerplate::domain::user_email::UserEmail;
use warp_server_boilerplate::errors::Errors;

#[test]
fn user_email_empty_string_is_rejected() {
    let email = "".to_string();
    assert!(UserEmail::parse(&email).is_err());
}

#[test]
fn email_missing_at_symbol_is_rejected() {
    let email = "ursuladomain.com".to_string();
    assert!(UserEmail::parse(&email).is_err());
}

#[test]
fn email_missing_subject_is_rejected() {
    let email = "@domain.com".to_string();
    assert!(UserEmail::parse(&email).is_err());
}

#[test]
fn a_valid_email_is_parsed_and_kept() {
    let email = UserEmail::parse("ursula_le_guin@gmail.com").expect("valid address refused");
    assert_eq!(email.as_str(), "ursula_le_guin@gmail.com");
    let text: &str = email.as_ref();
    assert_eq!(text, "ursula_le_guin@gmail.com");
}

#[test]
fn a_refused_email_is_reported_with_the_address() {
    match UserEmail::parse("abc@") {
        Err(Errors::EmailNotValid(s)) => assert_eq!(s, "abc@"),
        other => panic!("unexpected {:?}", other),
    }
}

#[test]
fn email_with_two_at_signs_is_rejected() {
    assert!(UserEmail::parse("something@@somewhere.com").is_err());
}

#[test]
fn from_validation_follows_the_verdict() {
    assert_eq!(UserEmail::from_validation("x", true).expect("accepted").as_str(), "x");
    match UserEmail::from_validation("y", false) {
        Err(Errors::EmailNotValid(s)) => assert_eq!(s, "y"),
        other => panic!("unexpected {:?}", other),
    }
}
