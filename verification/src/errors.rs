//! The errors that the service answers requests with, and the reply that each
//! rejection of a request gets.

use vstd::prelude::*;

verus! {

/// `argon2::Error`, the error of the `rust-argon2` crate, carried as it is.
#[verifier::external_type_specification]
#[verifier::external_body]
pub struct ExArgon2Error(argon2::Error);

/// Why a request was refused.
#[derive(Debug)]
pub enum Errors {
    PasswordNotValid,
    SerializationError,
    UserNameNotValid(String),
    EmailNotValid(String),
    PasswordEncodeFailed(argon2::Error),
    WrongCredentials,
    /// The submitted form, as its (field, value) pairs.
    MissingBodyFields(Vec<(String, String)>),
    DBQueryError,
    InvalidSession,
    LoginAttemptsLimit,
}

/// What a refused request was refused for, in the order in which the reply is
/// chosen: a route that was not found, a body that could not be read, one of
/// the service's own errors, a method that is not allowed, or anything else.
#[derive(Debug)]
pub enum RejectionKind {
    NotFound,
    InvalidBody,
    Custom(Errors),
    MethodNotAllowed,
    Other,
}

/// The reply to a refused request: its HTTP status code and its body.
pub open spec fn reply_for(kind: &RejectionKind) -> (u16, Seq<char>) {
    match kind {
        RejectionKind::NotFound => (404, "Not Found"@),
        RejectionKind::InvalidBody => (400, "Invalid Body"@),
        RejectionKind::Custom(e) => match e {
            Errors::PasswordNotValid => (401, "Password not valid."@),
            Errors::InvalidSession => (401, "Invalid session."@),
            Errors::WrongCredentials => (401, "Wrong username or password."@),
            Errors::LoginAttemptsLimit => (401, "Failed login attempt limit reached. Wait a minute and try again."@),
            Errors::UserNameNotValid(_) => (401, "Username not valid."@),
            Errors::EmailNotValid(_) => (401, "Email not valid."@),
            Errors::PasswordEncodeFailed(_) => (500, "Failed to encode/decode password."@),
            Errors::MissingBodyFields(_) => (500, "Invalid Body"@),
            Errors::DBQueryError => (500, "Internal Server Error"@),
            Errors::SerializationError => (500, "Internal Server Error"@),
        },
        RejectionKind::MethodNotAllowed => (405, "Method Not Allowed"@),
        RejectionKind::Other => (500, "Internal Server Error"@),
    }
}

/// The HTTP status code and body that answer a refused request.
pub fn handle_rejection(kind: &RejectionKind) -> (res: (u16, &'static str))
    ensures
        res.0 == reply_for(kind).0,
        res.1@ == reply_for(kind).1,
{
    match kind {
        RejectionKind::NotFound => (404, "Not Found"),
        RejectionKind::InvalidBody => (400, "Invalid Body"),
        RejectionKind::Custom(e) => match e {
            Errors::PasswordNotValid => (401, "Password not valid."),
            Errors::InvalidSession => (401, "Invalid session."),
            Errors::WrongCredentials => (401, "Wrong username or password."),
            Errors::LoginAttemptsLimit => (401, "Failed login attempt limit reached. Wait a minute and try again."),
            Errors::UserNameNotValid(_) => (401, "Username not valid."),
            Errors::EmailNotValid(_) => (401, "Email not valid."),
            Errors::PasswordEncodeFailed(_) => (500, "Failed to encode/decode password."),
            Errors::MissingBodyFields(_) => (500, "Invalid Body"),
            Errors::DBQueryError => (500, "Internal Server Error"),
            Errors::SerializationError => (500, "Internal Server Error"),
        },
        RejectionKind::MethodNotAllowed => (405, "Method Not Allowed"),
        RejectionKind::Other => (500, "Internal Server Error"),
    }
}

} // verus!
