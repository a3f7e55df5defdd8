use warp_server_boilerplate::domain::login_throttling::LoginThrottling;
use warp_server_boilerplate::domain::session::SessionPool;
use warp_server_boilerplate::domain::user_password::{secret_key_or_default, UserPassword};
use warp_server_boilerplate::errors::Errors;
use warp_server_boilerplate::routes::auth::{
    begin_login, begin_login_at, end_session, finish_login, finish_login_with, login_fields, new_user_from_form,
    new_user_from_form_with, registration_fields,
};
use warp_server_boilerplate::routes::form::form_value;
use warp_server_boilerplate::routes::update_session::{refresh_session, refresh_session_at};
use warp_server_boilerplate::time::Timestamp;

fn at(secs: i64) -> Timestamp {
    Timestamp { secs, nanos: 0 }
}

fn form(pairs: &[(&str, &str)]) -> Vec<(String, String)> {
    pairs.iter().map(|(k, v)| (k.to_string(), v.to_string())).collect()
}

#[test]
fn form_lookup_finds_fields() {
    let body = form(&[("name", "le guin"), ("password", "1234qwer")]);
    assert_eq!(form_value(&body, "name"), Some("le guin".to_string()));
    assert_eq!(form_value(&body, "password"), Some("1234qwer".to_string()));
    assert_eq!(form_value(&body, "email"), None);
}

#[test]
fn login_needs_name_and_password() {
    let (n, p) = login_fields(form(&[("password", "pw"), ("name", "n")])).expect("fields");
    assert_eq!((n.as_str(), p.as_str()), ("n", "pw"));
    match login_fields(form(&[("name", "n")])) {
        Err(Errors::MissingBodyFields(b)) => assert_eq!(b, form(&[("name", "n")])),
        other => panic!("unexpected {:?}", other),
    }
}

#[test]
fn throttled_login_is_refused() {
    let mut t = LoginThrottling::init();
    for i in 0..6 {
        t.register_failed_login_attempt_at("n", at(100 + i));
    }
    let body = form(&[("name", "n"), ("password", "pw")]);
    assert!(matches!(begin_login_at(body.clone(), &t, at(110)), Err(Errors::LoginAttemptsLimit)));
    assert!(begin_login_at(body.clone(), &t, at(200)).is_ok());
    assert!(matches!(begin_login(body, &t), Ok(_)));
}

#[test]
fn wrong_password_counts_and_right_password_opens_a_session() {
    let key = secret_key_or_default(None);
    let stored = UserPassword::parse_with_salt("TestPassword#123", &[3u8; 32], &key).expect("hash").0;
    let mut throttling = LoginThrottling::init();
    let mut sessions = SessionPool::init();
    for i in 0..6 {
        let r = finish_login_with("n", "wrong password", &stored, &key, &mut throttling, &mut sessions, at(100 + i), "id".to_string());
        assert!(matches!(r, Err(Errors::WrongCredentials)));
    }
    assert!(!throttling.is_login_allowed_at("n", at(110)));
    assert!(sessions.get_session(&"id".to_string()).is_err());
    let cookie = finish_login_with("n", "TestPassword#123", &stored, &key, &mut throttling, &mut sessions, at(1431648000), "id".to_string())
        .expect("login");
    assert_eq!(
        cookie,
        "session=id; Max-Age=86400; Expires=2015-05-16 00:00:00 UTC; SameSite=Strict; HttpOpnly; Secure=true"
    );
    assert!(throttling.is_login_allowed_at("n", at(110)));
    assert_eq!(sessions.get_session(&"id".to_string()).unwrap().1, at(1431648000 + 86400));
}

#[test]
fn login_with_the_clock() {
    let key = secret_key_or_default(None);
    let stored = UserPassword::parse("TestPassword#123", &key).expect("hash").0;
    let mut throttling = LoginThrottling::init();
    let mut sessions = SessionPool::init();
    assert!(matches!(
        finish_login("n", "nope nope", &stored, &key, &mut throttling, &mut sessions),
        Err(Errors::WrongCredentials)
    ));
    let cookie = finish_login("n", "TestPassword#123", &stored, &key, &mut throttling, &mut sessions).expect("login");
    assert!(cookie.starts_with("session="));
    assert!(matches!(
        finish_login("n", "TestPassword#123", "garbage", &key, &mut throttling, &mut sessions),
        Err(Errors::PasswordEncodeFailed(_))
    ));
}

#[test]
fn registration_builds_a_user() {
    let key = secret_key_or_default(None);
    let body = form(&[("name", "le guin"), ("email", "ursula_le_guin@gmail.com"), ("password", "1234qwer")]);
    let user = new_user_from_form_with(body.clone(), &key, &[1u8; 32], at(42)).expect("user");
    assert_eq!(user.email.as_str(), "ursula_le_guin@gmail.com");
    assert_eq!(user.name.as_str(), "le guin");
    assert_eq!(user.created_at, at(42));
    assert!(UserPassword::verify(user.password.as_str(), "1234qwer", &key).unwrap());
    let user = new_user_from_form(body, &key).expect("user");
    assert!(user.created_at.secs > 1_600_000_000);
}

#[test]
fn registration_refusals() {
    let key = secret_key_or_default(None);
    assert!(matches!(
        registration_fields(form(&[("name", "n"), ("email", "a@b.c")])),
        Err(Errors::MissingBodyFields(_))
    ));
    let bad_email = form(&[("name", "n"), ("email", "nope"), ("password", "short")]);
    assert!(matches!(new_user_from_form_with(bad_email, &key, &[1u8; 32], at(0)), Err(Errors::EmailNotValid(_))));
    let bad_password = form(&[("name", "n"), ("email", "a@b.c"), ("password", "short")]);
    assert!(matches!(new_user_from_form(bad_password, &key), Err(Errors::PasswordNotValid)));
}

#[test]
fn logout_closes_the_session() {
    let mut sessions = SessionPool::init();
    sessions.register_session_with("s".to_string(), at(0));
    end_session(&mut sessions, None);
    assert!(sessions.get_session(&"s".to_string()).is_ok());
    end_session(&mut sessions, Some("other".to_string()));
    end_session(&mut sessions, Some("s".to_string()));
    assert!(sessions.get_session(&"s".to_string()).is_err());
}

#[test]
fn refresh_renews_valid_and_closes_expired_sessions() {
    let mut sessions = SessionPool::init();
    sessions.register_session_with("s".to_string(), at(0));
    assert!(matches!(refresh_session_at(&mut sessions, None, at(10)), Err(Errors::InvalidSession)));
    assert!(matches!(refresh_session_at(&mut sessions, Some("x".to_string()), at(10)), Err(Errors::InvalidSession)));
    let cookie = refresh_session_at(&mut sessions, Some("s".to_string()), at(1431561600)).err();
    assert!(matches!(cookie, Some(Errors::InvalidSession)));
    assert!(sessions.get_session(&"s".to_string()).is_err());
    sessions.register_session_with("t".to_string(), at(1431561600));
    let cookie = refresh_session_at(&mut sessions, Some("t".to_string()), at(1431648000 - 10)).expect("renew");
    assert!(cookie.starts_with("session=t; Max-Age=86400; Expires=2015-05-15 23:59:50 UTC"));
    let cookie = sessions.register_session();
    let id = cookie["session=".len().."session=".len() + 32].to_string();
    assert!(refresh_session(&mut sessions, Some(id)).is_ok());
}
