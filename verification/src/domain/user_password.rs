//! A user's password: accepted only when it is not blank and has between 8
//! and 256 grapheme clusters, and then kept as its argon2 hash.

use crate::errors::Errors;
use rand::Rng;
use unicode_segmentation::UnicodeSegmentation;
use vstd::prelude::*;

verus! {

/// Whether the character has Unicode's `White_Space` property, which is what
/// `char::is_whitespace` answers: U+0009 to U+000D, the space, U+0085, U+00A0,
/// U+1680, U+2000 to U+200A, U+2028, U+2029, U+202F, U+205F and U+3000.
pub open spec fn white_space(c: char) -> bool {
    let n = c as u32;
    ||| 0x9 <= n <= 0xd
    ||| n == 0x20
    ||| n == 0x85
    ||| n == 0xa0
    ||| n == 0x1680
    ||| 0x2000 <= n <= 0x200a
    ||| n == 0x2028
    ||| n == 0x2029
    ||| n == 0x202f
    ||| n == 0x205f
    ||| n == 0x3000
}

/// Whether the character has Unicode's `White_Space` property.
fn is_whitespace(c: char) -> (res: bool)
    ensures
        res == white_space(c),
{
    let n = c as u32;
    (0x9 <= n && n <= 0xd) || n == 0x20 || n == 0x85 || n == 0xa0 || n == 0x1680
        || (0x2000 <= n && n <= 0x200a) || n == 0x2028 || n == 0x2029 || n == 0x202f
        || n == 0x205f || n == 0x3000
}

/// Every character of `s` is white space: what `s.trim().is_empty()` tests,
/// since `str::trim` removes leading and trailing `White_Space` characters.
pub open spec fn is_blank(s: Seq<char>) -> bool {
    forall|i: int| 0 <= i < s.len() ==> white_space(#[trigger] s[i])
}

/// Whether `password` is empty or holds only white space.
fn is_empty_or_whitespace(password: &str) -> (res: bool)
    ensures
        res == is_blank(password@),
{
    broadcast use vstd::string::group_string_axioms;

    for c in it: password.chars()
        invariant
            it.seq() == password@,
            forall|j: int| 0 <= j < it.index() ==> white_space(#[trigger] it.seq()[j]),
    {
        if !is_whitespace(c) {
            return false;
        }
    }
    true
}

/// The number of extended grapheme clusters in `s`, as
/// `unicode_segmentation` counts them.
pub uninterp spec fn grapheme_count(s: Seq<char>) -> nat;

/// Counts the extended grapheme clusters of `s` with
/// `UnicodeSegmentation::graphemes(s, true).count()`, named `grapheme_count`.
/// The iterator hands out non-empty consecutive slices that cover `s`, so the
/// count is at most the number of characters, and zero exactly for the empty
/// string.
#[verifier::external_body]
fn count_graphemes(s: &str) -> (res: usize)
    ensures
        res == grapheme_count(s@),
        res <= s@.len(),
        (res == 0) == (s@.len() == 0),
{
    s.graphemes(true).count()
}

/// Draws a salt of 32 random bytes with `rand::thread_rng().gen()`. Which bytes
/// come out is chance and is not stated.
#[verifier::external_body]
fn random_salt() -> (res: [u8; 32]) {
    rand::thread_rng().gen::<[u8; 32]>()
}

/// How every hash of this service begins: the variant, version and parameters
/// of argon2's default configuration.
pub open spec fn argon2_prefix() -> Seq<char> {
    "$argon2i$v=19$m=4096,t=3,p=1$"@
}

/// `h` is an encoded argon2 hash with this service's parameters.
pub open spec fn is_argon2_encoding(h: Seq<char>) -> bool {
    argon2_prefix().is_prefix_of(h)
}

/// The encoded hash that `argon2::hash_encoded` returns for the password's
/// UTF-8 bytes, the salt, and the default configuration with the secret's
/// UTF-8 bytes as its secret; `None` where it returns an error.
pub uninterp spec fn argon2_encoded(password: Seq<char>, salt: Seq<u8>, secret: Seq<char>) -> Option<Seq<char>>;

/// Calls `argon2::hash_encoded` with `Config { secret, ..Default::default() }`
/// (Argon2i, version 0x13, 4096 KiB, 3 passes, one lane, a 32-byte hash). Its
/// result is named `argon2_encoded`. Its source refuses only parameters out of
/// range; with that configuration and a salt of 32 bytes these are a password
/// or a secret longer than `u32::MAX` bytes. The string it returns is
/// `encode_string`'s: `$argon2i$v=19$m=4096,t=3,p=1$`, then the salt and the
/// hash in base64. It records the parameters and the salt, and
/// `argon2::verify_encoded_ext` decodes them and hashes again with the same
/// parameters: so it verifies for the same password and secret, and for any
/// password and secret within argon2's limits it gives an answer, not an error.
#[verifier::external_body]
fn argon2_hash_encoded(password: &str, salt: &[u8; 32], secret: &str) -> (res: Result<String, argon2::Error>)
    ensures
        res matches Ok(h) ==> argon2_encoded(password@, salt@, secret@) == Some(h@),
        res is Err ==> argon2_encoded(password@, salt@, secret@) is None,
        res matches Ok(h) ==> argon2_verification(h@, password@, secret@) == Some(true),
        res matches Ok(h) ==> is_argon2_encoding(h@),
        res matches Ok(h) ==> forall|q: Seq<char>, s: Seq<char>|
            hashable(q, s) ==> (#[trigger] argon2_verification(h@, q, s)) is Some,
        hashable(password@, secret@) ==> res is Ok,
{
    let config = argon2::Config { secret: secret.as_bytes(), ..argon2::Config::default() };
    argon2::hash_encoded(password.as_bytes(), salt, &config)
}

/// What `argon2::verify_encoded_ext` returns for the encoded hash, the
/// password's UTF-8 bytes, the secret's UTF-8 bytes and no associated data;
/// `None` where it returns an error.
pub uninterp spec fn argon2_verification(hash: Seq<char>, password: Seq<char>, secret: Seq<char>) -> Option<bool>;

/// Calls `argon2::verify_encoded_ext(hash, password, secret, &[])`, whose result
/// is named `argon2_verification`.
#[verifier::external_body]
fn argon2_verify_encoded(hash: &str, password: &str, secret: &str) -> (res: Result<bool, argon2::Error>)
    ensures
        res matches Ok(b) ==> argon2_verification(hash@, password@, secret@) == Some(b),
        res is Err ==> argon2_verification(hash@, password@, secret@) is None,

{
    argon2::verify_encoded_ext(hash, password.as_bytes(), secret.as_bytes(), &[])
}

/// The secret key used when none is configured.
pub open spec fn default_secret_key() -> Seq<char> {
    "01230123012301230123012301230123"@
}

/// The secret key for hashing: the configured one, or `"0123"` four times
/// repeated twice over (32 characters) when none is configured.
pub fn secret_key_or_default(configured: Option<String>) -> (res: String)
    ensures
        match configured {
            Some(s) => res@ == s@,
            None => res@ == default_secret_key(),
        },
{
    match configured {
        Some(s) => s,
        None => String::from_str("01230123012301230123012301230123"),
    }
}

/// The fewest grapheme clusters a password may have.
pub const MIN_PASSWORD_GRAPHEMES: usize = 8usize;

/// The most grapheme clusters a password may have.
pub const MAX_PASSWORD_GRAPHEMES: usize = 256usize;

/// A password is acceptable when it is not blank and has between 8 and 256
/// grapheme clusters.
pub open spec fn meets_requirements(password: Seq<char>) -> bool {
    !is_blank(password) && MIN_PASSWORD_GRAPHEMES <= grapheme_count(password) <= MAX_PASSWORD_GRAPHEMES
}

/// The password's bytes and the secret's fit the limits of argon2.
pub open spec fn hashable(password: Seq<char>, secret: Seq<char>) -> bool {
    utf8_len(password) <= u32::MAX && utf8_len(secret) <= u32::MAX
}

/// The number of bytes of the UTF-8 encoding of `s`.
pub open spec fn utf8_len(s: Seq<char>) -> nat {
    vstd::utf8::encode_utf8(s).len()
}

/// What is known of an argon2 hash `h` made from `password` and `secret`: it
/// has this service's encoding, it verifies for that password and secret, and
/// checking any password and secret within argon2's limits against it gives an
/// answer rather than an error.
pub open spec fn is_hash_of(h: Seq<char>, password: Seq<char>, secret: Seq<char>) -> bool {
    &&& is_argon2_encoding(h)
    &&& argon2_verification(h, password, secret) == Some(true)
    &&& forall|q: Seq<char>, s: Seq<char>| hashable(q, s) ==> (#[trigger] argon2_verification(h, q, s)) is Some
}

/// What `UserPassword::parse_with_salt(password, salt, secret)` returns: refused
/// with `PasswordNotValid` when the password does not meet the requirements;
/// otherwise the argon2 hash of the password with that salt and secret, or
/// `PasswordEncodeFailed` where argon2 refuses to hash, which it does not for a
/// password and secret within its limits.
pub open spec fn parsed_as(res: Result<UserPassword, Errors>, password: Seq<char>, salt: Seq<u8>, secret: Seq<char>) -> bool {
    if !meets_requirements(password) {
        res == Err::<UserPassword, Errors>(Errors::PasswordNotValid)
    } else {
        &&& hashable(password, secret) ==> res is Ok
        &&& match argon2_encoded(password, salt, secret) {
            Some(h) => res matches Ok(p) && p.0@ == h && is_hash_of(h, password, secret),
            None => res matches Err(e) && e is PasswordEncodeFailed,
        }
    }
}

/// A password that `parse` accepted verifies against the hash it was kept as,
/// under the same secret key: `UserPassword::verify` then returns `Ok(true)`.
pub proof fn law_accepted_password_verifies(
    res: Result<UserPassword, Errors>,
    password: Seq<char>,
    salt: Seq<u8>,
    secret: Seq<char>,
)
    requires
        parsed_as(res, password, salt, secret),
        res is Ok,
    ensures
        argon2_verification(res->Ok_0.0@, password, secret) == Some(true),
{
}

/// Checking any password that fits argon2's limits, under any secret key
/// within them, against a hash that `parse` produced gives an answer:
/// `UserPassword::verify` then never fails with `PasswordEncodeFailed`.
pub proof fn law_parsed_hash_is_always_checkable(
    res: Result<UserPassword, Errors>,
    password: Seq<char>,
    salt: Seq<u8>,
    secret: Seq<char>,
    other_password: Seq<char>,
    other_secret: Seq<char>,
)
    requires
        parsed_as(res, password, salt, secret),
        res is Ok,
        hashable(other_password, other_secret),
    ensures
        argon2_verification(res->Ok_0.0@, other_password, other_secret) is Some,
{
}

/// The hash that `parse` keeps begins with argon2's parameters, so it differs
/// from any password that does not begin the same way.
pub proof fn law_hash_is_not_the_password(
    res: Result<UserPassword, Errors>,
    password: Seq<char>,
    salt: Seq<u8>,
    secret: Seq<char>,
)
    requires
        parsed_as(res, password, salt, secret),
        res is Ok,
        !argon2_prefix().is_prefix_of(password),
    ensures
        is_argon2_encoding(res->Ok_0.0@),
        res->Ok_0.0@ != password,
{
}

/// A blank password, or one with fewer than 8 or more than 256 grapheme
/// clusters, is refused with `PasswordNotValid`, whatever the salt and key.
pub proof fn law_unacceptable_password_refused(
    res: Result<UserPassword, Errors>,
    password: Seq<char>,
    salt: Seq<u8>,
    secret: Seq<char>,
)
    requires
        parsed_as(res, password, salt, secret),
        is_blank(password) || grapheme_count(password) < MIN_PASSWORD_GRAPHEMES
            || grapheme_count(password) > MAX_PASSWORD_GRAPHEMES,
    ensures
        res == Err::<UserPassword, Errors>(Errors::PasswordNotValid),
{
}

/// A password that met the requirements, kept as its encoded argon2 hash.
#[derive(Debug)]
pub struct UserPassword(pub String);

impl UserPassword {
    /// Whether a password with the given blankness and number of grapheme
    /// clusters meets the requirements.
    pub fn requirements_met(is_blank: bool, graphemes: usize) -> (res: bool)
        ensures
            res == (!is_blank && MIN_PASSWORD_GRAPHEMES <= graphemes <= MAX_PASSWORD_GRAPHEMES),
    {
        let is_too_short = graphemes < MIN_PASSWORD_GRAPHEMES;
        let is_too_long = graphemes > MAX_PASSWORD_GRAPHEMES;
        !(is_blank || is_too_short || is_too_long)
    }

    /// The encoded argon2 hash of `password` with `salt` and `secret_key`;
    /// `PasswordEncodeFailed` where argon2 refuses to hash.
    pub fn hash_password_with_salt(password: &str, salt: &[u8; 32], secret_key: &str) -> (res: Result<String, Errors>)
        ensures
            match argon2_encoded(password@, salt@, secret_key@) {
                Some(h) => res matches Ok(s) && s@ == h && is_hash_of(h, password@, secret_key@),
                None => res matches Err(e) && e is PasswordEncodeFailed,
            },
            hashable(password@, secret_key@) ==> res is Ok,
    {
        match argon2_hash_encoded(password, salt, secret_key) {
            Ok(h) => Ok(h),
            Err(e) => Err(Errors::PasswordEncodeFailed(e)),
        }
    }

    /// Checks `password` against the requirements and hashes it with `salt`.
    pub fn parse_with_salt(password: &str, salt: &[u8; 32], secret_key: &str) -> (res: Result<UserPassword, Errors>)
        ensures
            parsed_as(res, password@, salt@, secret_key@),
            meets_requirements(password@) && hashable(password@, secret_key@) ==> res is Ok,
    {
        let is_empty_or_whitespace = is_empty_or_whitespace(password);
        let graphemes = count_graphemes(password);
        if !Self::requirements_met(is_empty_or_whitespace, graphemes) {
            return Err(Errors::PasswordNotValid);
        }
        let hash = Self::hash_password_with_salt(password, salt, secret_key)?;
        Ok(UserPassword(hash))
    }

    /// Checks `password` against the requirements and hashes it with a fresh
    /// random salt of 32 bytes.
    pub fn parse(password: &str, secret_key: &str) -> (res: Result<UserPassword, Errors>)
        ensures
            exists|salt: Seq<u8>| salt.len() == 32 && #[trigger] parsed_as(res, password@, salt, secret_key@),
            meets_requirements(password@) && hashable(password@, secret_key@) ==> res is Ok,
    {
        let salt = random_salt();
        let res = Self::parse_with_salt(password, &salt, secret_key);
        proof {
            assert(parsed_as(res, password@, salt@, secret_key@));
        }
        res
    }

    /// Whether `password` matches the encoded hash `hash` under `secret_key`;
    /// `PasswordEncodeFailed` where argon2 cannot check.
    pub fn verify(hash: &str, password: &str, secret_key: &str) -> (res: Result<bool, Errors>)
        ensures
            match argon2_verification(hash@, password@, secret_key@) {
                Some(b) => res == Ok::<bool, Errors>(b),
                None => res matches Err(e) && e is PasswordEncodeFailed,
            },
    {
        match argon2_verify_encoded(hash, password, secret_key) {
            Ok(b) => Ok(b),
            Err(e) => Err(Errors::PasswordEncodeFailed(e)),
        }
    }

    /// The encoded hash.
    pub fn as_str(&self) -> (res: &str)
        ensures
            res@ == self.0@,
    {
        self.0.as_str()
    }
}

impl AsRef<str> for UserPassword {
    fn as_ref(&self) -> (res: &str)
        ensures
            res@ == self.0@,
    {
        self.0.as_str()
    }
}

} // verus!
