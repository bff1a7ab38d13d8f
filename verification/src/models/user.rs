//! Users: the rules a registration must meet, what is stored for a new
//! user, and how the outcome of a lookup becomes the outcome of a request.

use crate::auth::password::{
    argon2_accepts,
    hashable,
    hash_password,
    verify_password,
};
use crate::services::error::AppError;
use crate::text::{contains, contains_char, has_substring};
use vstd::prelude::*;
use vstd::string::{StrSliceExecFns, StringExecFns};

verus! {

/// A user as the service hands it out: no password material.
#[derive(Debug, Clone, PartialEq, Eq)]
pub struct User {
    pub id: i32,
    pub username: String,
    pub email: String,
    /// Time of creation in microseconds since the epoch, where it is known.
    pub created_at: Option<i64>,
}

/// What a registration asks for.
#[derive(Debug, Clone, PartialEq, Eq)]
pub struct NewUser {
    pub username: String,
    pub email: String,
    /// The password in plain text; it is never stored.
    pub password: String,
}

/// What is stored for a new user: the password only as a one-way hash.
#[derive(Debug, Clone, PartialEq, Eq)]
pub struct StoredCredential {
    pub username: String,
    pub email: String,
    pub password_hash: String,
}

/// The shortest user name, in characters.
pub const MIN_USERNAME_CHARS: usize = 3;

/// The shortest password, in characters.
pub const MIN_PASSWORD_CHARS: usize = 12;

/// An address with an `@` and a dot in it.
pub open spec fn valid_email(email: Seq<char>) -> bool {
    email.contains('@') && email.contains('.')
}

/// A password of at least twelve characters.
pub open spec fn strong_password(password: Seq<char>) -> bool {
    password.len() >= MIN_PASSWORD_CHARS
}

/// The first rule that a registration breaks, as the message for the
/// client; `None` where it breaks none.
pub open spec fn registration_fault(username: Seq<char>, email: Seq<char>, password: Seq<char>)
    -> Option<Seq<char>> {
    if username.len() < MIN_USERNAME_CHARS {
        Some("Username too short"@)
    } else if !valid_email(email) {
        Some("Invalid email format"@)
    } else if !strong_password(password) {
        Some("Password must be at least 12 characters"@)
    } else {
        None
    }
}

/// Whether a violated constraint of this name means that the user name or
/// the address is taken.
pub open spec fn names_uniqueness(constraint: Option<&str>) -> bool {
    match constraint {
        Some(c) => has_substring(c@, "username"@) || has_substring(c@, "email"@),
        None => false,
    }
}

/// The user that a login is accepted for: the one found, where a hash is
/// stored for it and that hash accepts the password.
pub open spec fn accepted_user(user: Option<User>, password_hash: Option<String>, password: Seq<char>)
    -> Option<User> {
    match (user, password_hash) {
        (Some(u), Some(h)) => if argon2_accepts(h@, password) {
            Some(u)
        } else {
            None
        },
        _ => None,
    }
}

pub fn is_valid_email(email: &str) -> (r: bool)
    ensures
        r == valid_email(email@),
{
    contains_char(email, '@') && contains_char(email, '.')
}

pub fn is_strong_password(password: &str) -> (r: bool)
    ensures
        r == strong_password(password@),
{
    password.unicode_len() >= MIN_PASSWORD_CHARS
}

impl User {
    /// Checks a registration against the rules: the first one broken is
    /// the error.
    pub fn validate(new_user: &NewUser, password: &str) -> (r: Result<(), AppError>)
        ensures
            match registration_fault(new_user.username@, new_user.email@, password@) {
                Some(text) => r matches Err(AppError::ValidationError(m)) && m@ == text,
                None => r is Ok,
            },
    {
        if new_user.username.as_str().unicode_len() < MIN_USERNAME_CHARS {
            return Err(AppError::ValidationError(String::from_str("Username too short")));
        }
        if !is_valid_email(new_user.email.as_str()) {
            return Err(AppError::ValidationError(String::from_str("Invalid email format")));
        }
        if !is_strong_password(password) {
            return Err(
                AppError::ValidationError(
                    String::from_str("Password must be at least 12 characters"),
                ),
            );
        }
        Ok(())
    }

    /// Prepares a new user for storing: a registration that breaks a rule
    /// is refused with that rule's message, and every other one gives the
    /// name, the address and a hash that the password checks against.
    pub fn create(new_user: NewUser, password: String) -> (r: Result<StoredCredential, AppError>)
        requires
            hashable(password@),
        ensures
            match registration_fault(new_user.username@, new_user.email@, password@) {
                Some(text) => r matches Err(AppError::ValidationError(m)) && m@ == text,
                None => {
                    &&& r matches Ok(row)
                    &&& row.username == new_user.username
                    &&& row.email == new_user.email
                    &&& argon2_accepts(row.password_hash@, password@)
                },
            },
    {
        match User::validate(&new_user, password.as_str()) {
            Err(e) => Err(e),
            Ok(()) => {
                let password_hash: String = hash_password(password);
                Ok(
                    StoredCredential {
                        username: new_user.username,
                        email: new_user.email,
                        password_hash,
                    },
                )
            },
        }
    }

    /// The error for a new user that the store refused: a broken constraint
    /// on the user name or the address is the client's fault, everything
    /// else is an internal error. `constraint` is the name of the broken
    /// constraint, where the store gave one.
    pub fn creation_failure(constraint: Option<&str>) -> (r: AppError)
        ensures
            if names_uniqueness(constraint) {
                r matches AppError::ValidationError(m) && m@ == "Username or email already exists"@
            } else {
                r == AppError::InternalServerError
            },
    {
        match constraint {
            Some(c) => {
                if contains(c, "username") || contains(c, "email") {
                    AppError::ValidationError(String::from_str("Username or email already exists"))
                } else {
                    AppError::InternalServerError
                }
            },
            None => AppError::InternalServerError,
        }
    }

    /// Decides a login from what the store holds: `user` is the user of
    /// that name, if there is one, and `password_hash` the hash stored for
    /// it, if any. Only a user whose stored hash accepts the password is
    /// handed back. A missing user and a missing hash are refused without
    /// any hashing; a malformed hash and a wrong password are refused by the
    /// check. Every refusal is `AuthenticationFailed`.
    pub fn find_by_credentials(user: Option<User>, password_hash: Option<String>, password: String)
        -> (r: Result<User, AppError>)
        ensures
            r == match accepted_user(user, password_hash, password@) {
                Some(u) => Ok::<User, AppError>(u),
                None => Err::<User, AppError>(AppError::AuthenticationFailed),
            },
            user is None ==> r == Err::<User, AppError>(AppError::AuthenticationFailed),
            password_hash is None ==> r == Err::<User, AppError>(AppError::AuthenticationFailed),
    {
        match user {
            None => Err(AppError::AuthenticationFailed),
            Some(u) => match password_hash {
                None => Err(AppError::AuthenticationFailed),
                Some(stored) => match verify_password(stored.as_str(), password) {
                    Ok(_) => Ok(u),
                    Err(e) => Err(e),
                },
            },
        }
    }

    /// The user that a lookup by identifier found, or `NotFound`.
    pub fn find_by_id(found: Option<User>) -> (r: Result<User, AppError>)
        ensures
            match found {
                Some(u) => r == Ok::<User, AppError>(u),
                None => r matches Err(AppError::NotFound(m)) && m@ == "User not found"@,
            },
    {
        match found {
            Some(u) => Ok(u),
            None => Err(AppError::NotFound(String::from_str("User not found"))),
        }
    }
}

/// A registration is refused exactly when it breaks a rule, and a password
/// of fewer than twelve characters always breaks one.
pub proof fn short_passwords_are_refused(username: Seq<char>, email: Seq<char>, password: Seq<char>)
    requires
        password.len() < MIN_PASSWORD_CHARS,
    ensures
        registration_fault(username, email, password) is Some,
{
}

} // verus!
