use warp_server_boilerplate::domain::login_throttling::LoginThrottling;
use warp_server_boilerplate::time::Timestamp;

fn at(secs: i64) -> Timestamp {
    Timestamp { secs, nanos: 0 }
}

#[test]
fn unknown_user_may_log_in() {
    let t = LoginThrottling::init();
    assert!(t.is_login_allowed_at("ursula", at(0)));
    assert!(t.is_login_allowed("ursula"));
}

#[test]
fn five_failures_do_not_block() {
    let mut t = LoginThrottling::init();
    for i in 0..5 {
        t.register_failed_login_attempt_at("ursula", at(100 + i));
    }
    assert!(t.is_login_allowed_at("ursula", at(105)));
}

#[test]
fn sixth_failure_blocks_for_a_minute() {
    let mut t = LoginThrottling::init();
    for i in 0..6 {
        t.register_failed_login_attempt_at("ursula", at(100 + i));
    }
    assert!(!t.is_login_allowed_at("ursula", at(105)));
    assert!(!t.is_login_allowed_at("ursula", Timestamp { secs: 164, nanos: 999_999_999 }));
    assert!(t.is_login_allowed_at("ursula", at(165)));
    assert!(t.is_login_allowed_at("other", at(105)));
}

#[test]
fn reset_allows_login_again() {
    let mut t = LoginThrottling::init();
    for i in 0..10 {
        t.register_failed_login_attempt_at("ursula", at(100 + i));
    }
    assert!(!t.is_login_allowed_at("ursula", at(110)));
    t.reset_login_attempts("ursula");
    assert!(t.is_login_allowed_at("ursula", at(110)));
    t.reset_login_attempts("nobody");
    assert!(t.is_login_allowed_at("nobody", at(110)));
}

#[test]
fn failures_with_the_clock_block_now() {
    let mut t = LoginThrottling::init();
    for _ in 0..6 {
        t.register_failed_login_attempt("ursula");
    }
    assert!(!t.is_login_allowed("ursula"));
}
