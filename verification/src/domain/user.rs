//! A new user: a checked e-mail address, a name, a checked and hashed
//! password, and the instant of creation.

use crate::domain::user_email::{email_is_valid, UserEmail};
use crate::domain::user_name::UserName;
use crate::domain::user_password::{hashable, meets_requirements, parsed_as, UserPassword};
use crate::errors::Errors;
use crate::time::{is_clock_reading, now, Timestamp};
use vstd::prelude::*;

verus! {

/// A user about to be stored.
#[derive(Debug)]
pub struct User {
    pub email: UserEmail,
    pub name: UserName,
    pub password: UserPassword,
    pub created_at: Timestamp,
}

/// What `User::new_with(name, email, password, secret, salt, created_at)`
/// returns: refused with `EmailNotValid` carrying the address when `validator`
/// refuses it; otherwise refused as the password is (see `parsed_as`), or the
/// user with these fields.
pub open spec fn created_as(
    res: Result<User, Errors>,
    name: Seq<char>,
    email: Seq<char>,
    password: Seq<char>,
    secret: Seq<char>,
    salt: Seq<u8>,
    created_at: Timestamp,
) -> bool {
    if !email_is_valid(email) {
        res matches Err(e) && (e matches Errors::EmailNotValid(t) && t@ == email)
    } else {
        &&& parsed_as(
            match res {
                Ok(u) => Ok(u.password),
                Err(e) => Err(e),
            },
            password,
            salt,
            secret,
        )
        &&& res matches Ok(u) ==> u.email@ == email && u.name@ == name && u.created_at == created_at
    }
}

impl User {
    /// The user with these fields, the password hashed with `salt`, created at
    /// `created_at`.
    pub fn new_with(
        name: &str,
        email: &str,
        password: &str,
        secret_key: &str,
        salt: &[u8; 32],
        created_at: Timestamp,
    ) -> (res: Result<User, Errors>)
        ensures
            created_as(res, name@, email@, password@, secret_key@, salt@, created_at),
            email_is_valid(email@) && meets_requirements(password@) && hashable(password@, secret_key@) ==> res is Ok,
    {
        let email = UserEmail::parse(email)?;
        let name = UserName::new(name);
        let password = UserPassword::parse_with_salt(password, salt, secret_key)?;
        Ok(User { email, name, password, created_at })
    }

    /// The user with these fields, the password hashed with a fresh random
    /// salt, created at the clock's reading.
    pub fn new(name: &str, email: &str, password: &str, secret_key: &str) -> (res: Result<User, Errors>)
        ensures
            exists|salt: Seq<u8>, t: Timestamp|
                salt.len() == 32 && is_clock_reading(t)
                    && #[trigger] created_as(res, name@, email@, password@, secret_key@, salt, t),
            email_is_valid(email@) && meets_requirements(password@) && hashable(password@, secret_key@) ==> res is Ok,
    {
        let created_at = now();
        match UserEmail::parse(email) {
            Err(e) => {
                let res: Result<User, Errors> = Err(e);
                proof {
                    assert(created_as(res, name@, email@, password@, secret_key@, seq![0u8; 32], created_at));
                }
                res
            },
            Ok(user_email) => {
                let user_name = UserName::new(name);
                let checked_password = UserPassword::parse(password, secret_key);
                let res = match checked_password {
                    Ok(user_password) => Ok(User { email: user_email, name: user_name, password: user_password, created_at }),
                    Err(e) => Err(e),
                };
                proof {
                    let salt = choose|salt: Seq<u8>|
                        salt.len() == 32 && #[trigger] parsed_as(checked_password, password@, salt, secret_key@);
                    assert(created_as(res, name@, email@, password@, secret_key@, salt, created_at));
                }
                res
            },
        }
    }
}

} // verus!
