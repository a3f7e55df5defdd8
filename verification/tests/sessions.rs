use warp_server_boilerplate::domain::session::SessionPool;
use warp_server_boilerplate::errors::Errors;
use warp_server_boilerplate::time::{add_secs, before, Timestamp};

fn at(secs: i64) -> Timestamp {
    Timestamp { secs, nanos: 0 }
}

#[test]
fn registered_session_is_found_with_its_expiry() {
    let mut pool = SessionPool::init();
    let cookie = pool.register_session_with("abc".to_string(), at(1431648000));
    assert_eq!(
        cookie,
        "session=abc; Max-Age=86400; Expires=2015-05-16 00:00:00 UTC; SameSite=Strict; HttpOpnly; Secure=true"
    );
    let s = pool.get_session(&"abc".to_string()).expect("session missing");
    assert_eq!(s.0, "abc");
    assert_eq!(s.1, at(1431648000 + 86400));
}

#[test]
fn unknown_session_is_refused_everywhere() {
    let mut pool = SessionPool::init();
    let id = "nope".to_string();
    assert!(matches!(pool.get_session(&id), Err(Errors::InvalidSession)));
    assert!(matches!(pool.stop_session(&id), Err(Errors::InvalidSession)));
    assert!(matches!(pool.validate_session(&id), Err(Errors::InvalidSession)));
    assert!(matches!(pool.update_session(&id), Err(Errors::InvalidSession)));
}

#[test]
fn stopped_session_is_gone() {
    let mut pool = SessionPool::init();
    pool.register_session_with("a".to_string(), at(100));
    pool.register_session_with("b".to_string(), at(200));
    let s = pool.stop_session(&"a".to_string()).expect("stop");
    assert_eq!(s.0, "a");
    assert_eq!(s.1, at(100 + 86400));
    assert!(pool.get_session(&"a".to_string()).is_err());
    assert_eq!(pool.get_session(&"b".to_string()).expect("b").1, at(200 + 86400));
}

#[test]
fn session_is_valid_for_one_day() {
    let mut pool = SessionPool::init();
    let id = "s".to_string();
    pool.register_session_with(id.clone(), at(1000));
    assert_eq!(pool.validate_session_at(&id, at(1000)).unwrap(), true);
    assert_eq!(pool.validate_session_at(&id, Timestamp { secs: 1000 + 86399, nanos: 999_999_999 }).unwrap(), true);
    assert_eq!(pool.validate_session_at(&id, at(1000 + 86400)).unwrap(), false);
}

#[test]
fn update_moves_the_expiry() {
    let mut pool = SessionPool::init();
    let id = "s".to_string();
    pool.register_session_with(id.clone(), at(1000));
    let cookie = pool.update_session_at(&id, at(1431648000)).expect("update");
    assert!(cookie.contains("Expires=2015-05-16 00:00:00 UTC"));
    assert_eq!(pool.get_session(&id).unwrap().1, at(1431648000 + 86400));
}

#[test]
fn register_with_the_clock_gives_a_uuid_cookie() {
    let mut pool = SessionPool::init();
    let cookie = pool.register_session();
    assert!(cookie.starts_with("session="));
    let id: String = cookie["session=".len().."session=".len() + 32].to_string();
    assert!(id.chars().all(|c| c.is_ascii_digit() || ('a'..='f').contains(&c)));
    assert!(cookie["session=".len() + 32..].starts_with("; Max-Age=86400; Expires="));
    assert!(cookie.ends_with(" UTC; SameSite=Strict; HttpOpnly; Secure=true"));
    assert_eq!(pool.validate_session(&id).unwrap(), true);
    assert!(pool.update_session(&id).is_ok());
}

#[test]
fn re_registering_an_id_replaces_the_session() {
    let mut pool = SessionPool::init();
    pool.register_session_with("x".to_string(), at(10));
    pool.register_session_with("x".to_string(), at(20));
    assert_eq!(pool.get_session(&"x".to_string()).unwrap().1, at(20 + 86400));
    pool.stop_session(&"x".to_string()).unwrap();
    assert!(pool.get_session(&"x".to_string()).is_err());
}

#[test]
fn time_helpers() {
    assert!(before(at(1), at(2)));
    assert!(before(Timestamp { secs: 1, nanos: 1 }, Timestamp { secs: 1, nanos: 2 }));
    assert!(!before(at(2), at(2)));
    assert_eq!(add_secs(at(5), 60), at(65));
    let mut pool = SessionPool::init();
    let cookie = pool.register_session_with("n".to_string(), Timestamp { secs: 1431561600, nanos: 500_000_000 });
    assert!(cookie.contains("Expires=2015-05-15 00:00:00.500 UTC;"));
}
