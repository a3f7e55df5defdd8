//! What the register, login and logout handlers decide: which form fields they
//! need, when a login is refused, what a failed or a successful login changes,
//! and which session a logout closes.

use crate::domain::login_throttling::{after_failure, after_reset, can_count_failure, login_allowed, LoginThrottling};
use crate::domain::session::{can_add_day, expiry_after, is_simple_uuid, registered, session_cookie, SessionPool};
use crate::domain::user::{created_as, User};
use crate::domain::user_email::email_is_valid;
use crate::domain::user_password::{argon2_verification, hashable, meets_requirements, UserPassword};
use crate::errors::Errors;
use crate::routes::form::{form_lookup, form_value};
use crate::time::{is_clock_reading, now, Timestamp};
use vstd::prelude::*;

verus! {

/// The form lacks one of the fields a handler needs: the request is refused
/// with `MissingBodyFields` carrying the whole form.
pub open spec fn refused_for_missing_fields<T>(res: Result<T, Errors>, body: Seq<(String, String)>) -> bool {
    res matches Err(e) && (e matches Errors::MissingBodyFields(b) && b@ == body)
}

/// The name and password of a login form; refused with `MissingBodyFields`
/// when either is missing.
pub fn login_fields(body: Vec<(String, String)>) -> (res: Result<(String, String), Errors>)
    ensures
        match (form_lookup(body@, "name"@), form_lookup(body@, "password"@)) {
            (Some(n), Some(p)) => res matches Ok(f) && f.0@ == n && f.1@ == p,
            _ => refused_for_missing_fields(res, body@),
        },
{
    let name = form_value(&body, "name");
    let password = form_value(&body, "password");
    match (name, password) {
        (Some(name), Some(password)) => Ok((name, password)),
        _ => Err(Errors::MissingBodyFields(body)),
    }
}

/// The first step of a login at `now`: the name and password of the form,
/// refused with `MissingBodyFields` when either is missing and with
/// `LoginAttemptsLimit` when logins for that name are throttled.
pub fn begin_login_at(body: Vec<(String, String)>, throttling: &LoginThrottling, now: Timestamp) -> (res: Result<(String, String), Errors>)
    requires
        throttling.wf(),
    ensures
        match (form_lookup(body@, "name"@), form_lookup(body@, "password"@)) {
            (Some(n), Some(p)) => if login_allowed(throttling@, n, now) {
                res matches Ok(f) && f.0@ == n && f.1@ == p
            } else {
                res == Err::<(String, String), Errors>(Errors::LoginAttemptsLimit)
            },
            _ => refused_for_missing_fields(res, body@),
        },
{
    let (name, password) = login_fields(body)?;
    if !throttling.is_login_allowed_at(name.as_str(), now) {
        return Err(Errors::LoginAttemptsLimit);
    }
    Ok((name, password))
}

/// The first step of a login at the clock's reading.
pub fn begin_login(body: Vec<(String, String)>, throttling: &LoginThrottling) -> (res: Result<(String, String), Errors>)
    requires
        throttling.wf(),
    ensures
        match (form_lookup(body@, "name"@), form_lookup(body@, "password"@)) {
            (Some(n), Some(p)) => exists|t: Timestamp| is_clock_reading(t) && if #[trigger] login_allowed(throttling@, n, t) {
                res matches Ok(f) && f.0@ == n && f.1@ == p
            } else {
                res == Err::<(String, String), Errors>(Errors::LoginAttemptsLimit)
            },
            _ => refused_for_missing_fields(res, body@),
        },
{
    let t = now();
    begin_login_at(body, throttling, t)
}

/// The last step of a login, once the stored hash of the user's password is
/// known: refused with `PasswordEncodeFailed` when argon2 cannot check the
/// password; with `WrongCredentials`, recording a failed attempt at `now`,
/// when it does not match; otherwise the user's failed attempts are reset and
/// the session `session_id` is opened at `now`, and its cookie returned.
pub fn finish_login_with(
    name: &str,
    password: &str,
    stored_hash: &str,
    secret_key: &str,
    throttling: &mut LoginThrottling,
    sessions: &mut SessionPool,
    now: Timestamp,
    session_id: String,
) -> (res: Result<String, Errors>)
    requires
        old(throttling).wf(),
        old(sessions).wf(),
        can_count_failure(old(throttling)@, name@),
        can_add_day(now),
    ensures
        final(throttling).wf(),
        final(sessions).wf(),
        match argon2_verification(stored_hash@, password@, secret_key@) {
            None => res matches Err(e) && e is PasswordEncodeFailed
                && final(throttling)@ == old(throttling)@ && final(sessions)@ == old(sessions)@,
            Some(false) => res == Err::<String, Errors>(Errors::WrongCredentials)
                && final(throttling)@ == after_failure(old(throttling)@, name@, now)
                && final(sessions)@ == old(sessions)@,
            Some(true) => res matches Ok(c) && c@ == session_cookie(session_id@, expiry_after(now))
                && final(throttling)@ == after_reset(old(throttling)@, name@)
                && final(sessions)@ == registered(old(sessions)@, session_id@, now),
        },
{
    if !UserPassword::verify(stored_hash, password, secret_key)? {
        throttling.register_failed_login_attempt_at(name, now);
        return Err(Errors::WrongCredentials);
    }
    throttling.reset_login_attempts(name);
    let session_cookie = sessions.register_session_with(session_id, now);
    Ok(session_cookie)
}

/// The last step of a login, with the clock read when a failed attempt is
/// recorded and when the session opens, and a fresh session identifier.
pub fn finish_login(
    name: &str,
    password: &str,
    stored_hash: &str,
    secret_key: &str,
    throttling: &mut LoginThrottling,
    sessions: &mut SessionPool,
) -> (res: Result<String, Errors>)
    requires
        old(throttling).wf(),
        old(sessions).wf(),
        can_count_failure(old(throttling)@, name@),
    ensures
        final(throttling).wf(),
        final(sessions).wf(),
        match argon2_verification(stored_hash@, password@, secret_key@) {
            None => res matches Err(e) && e is PasswordEncodeFailed
                && final(throttling)@ == old(throttling)@ && final(sessions)@ == old(sessions)@,
            Some(false) => res == Err::<String, Errors>(Errors::WrongCredentials)
                && final(sessions)@ == old(sessions)@
                && exists|t: Timestamp| is_clock_reading(t) && final(throttling)@ == #[trigger] after_failure(old(throttling)@, name@, t),
            Some(true) => final(throttling)@ == after_reset(old(throttling)@, name@)
                && exists|id: Seq<char>, t: Timestamp|
                    #![trigger registered(old(sessions)@, id, t)]
                    is_simple_uuid(id) && is_clock_reading(t) && final(sessions)@ == registered(old(sessions)@, id, t)
                        && (res matches Ok(c) && c@ == session_cookie(id, expiry_after(t))),
        },
{
    if !UserPassword::verify(stored_hash, password, secret_key)? {
        throttling.register_failed_login_attempt(name);
        return Err(Errors::WrongCredentials);
    }
    throttling.reset_login_attempts(name);
    let session_cookie = sessions.register_session();
    Ok(session_cookie)
}

/// The name, e-mail address and password of a registration form; refused
/// with `MissingBodyFields` when any of them is missing.
pub fn registration_fields(body: Vec<(String, String)>) -> (res: Result<(String, String, String), Errors>)
    ensures
        match (form_lookup(body@, "name"@), form_lookup(body@, "email"@), form_lookup(body@, "password"@)) {
            (Some(n), Some(e), Some(p)) => res matches Ok(f) && f.0@ == n && f.1@ == e && f.2@ == p,
            _ => refused_for_missing_fields(res, body@),
        },
{
    let name = form_value(&body, "name");
    let email = form_value(&body, "email");
    let password = form_value(&body, "password");
    match (name, email, password) {
        (Some(name), Some(email), Some(password)) => Ok((name, email, password)),
        _ => Err(Errors::MissingBodyFields(body)),
    }
}

/// The new user that a registration form describes, with the password hashed
/// with `salt` and created at `created_at`; refused with `MissingBodyFields`
/// when the name, the e-mail address or the password is missing, and otherwise
/// as `User::new_with` refuses.
pub fn new_user_from_form_with(
    body: Vec<(String, String)>,
    secret_key: &str,
    salt: &[u8; 32],
    created_at: Timestamp,
) -> (res: Result<User, Errors>)
    ensures
        match (form_lookup(body@, "name"@), form_lookup(body@, "email"@), form_lookup(body@, "password"@)) {
            (Some(n), Some(e), Some(p)) => created_as(res, n, e, p, secret_key@, salt@, created_at)
                && (email_is_valid(e) && meets_requirements(p) && hashable(p, secret_key@) ==> res is Ok),
            _ => refused_for_missing_fields(res, body@),
        },
{
    let (name, email, password) = registration_fields(body)?;
    User::new_with(name.as_str(), email.as_str(), password.as_str(), secret_key, salt, created_at)
}

/// The new user that a registration form describes, with a fresh salt and
/// created at the clock's reading.
pub fn new_user_from_form(body: Vec<(String, String)>, secret_key: &str) -> (res: Result<User, Errors>)
    ensures
        match (form_lookup(body@, "name"@), form_lookup(body@, "email"@), form_lookup(body@, "password"@)) {
            (Some(n), Some(e), Some(p)) => (exists|salt: Seq<u8>, t: Timestamp|
                salt.len() == 32 && is_clock_reading(t) && #[trigger] created_as(res, n, e, p, secret_key@, salt, t))
                && (email_is_valid(e) && meets_requirements(p) && hashable(p, secret_key@) ==> res is Ok),
            _ => refused_for_missing_fields(res, body@),
        },
{
    let (name, email, password) = registration_fields(body)?;
    User::new(name.as_str(), email.as_str(), password.as_str(), secret_key)
}

/// Logging out closes the session named by the cookie, if the request carried
/// one; a session that is not open is no error.
pub fn end_session(sessions: &mut SessionPool, session_id: Option<String>)
    requires
        old(sessions).wf(),
    ensures
        final(sessions).wf(),
        match session_id {
            Some(id) => final(sessions)@ == old(sessions)@.remove(id@),
            None => final(sessions)@ == old(sessions)@,
        },
{
    if let Some(session_id) = session_id {
        let _ = sessions.stop_session(&session_id);
    }
}

} // verus!
