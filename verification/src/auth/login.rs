//! Login and registration: what a verified user gets back, and what a
//! registration stores.

use crate::auth::jwt::{Claims, ClaimsView, JwtAuth, signed_token};
use crate::auth::password::{argon2_accepts, hashable};
use crate::models::user::{NewUser, StoredCredential, User, accepted_user, registration_fault};
use crate::services::error::AppError;
use crate::text::{decimal_string, decimal_text};
use vstd::prelude::*;
use vstd::string::StringExecFns;

verus! {

#[derive(Debug, Clone, PartialEq, Eq)]
pub struct LoginRequest {
    pub username: String,
    pub password: String,
}

#[derive(Debug, Clone, PartialEq, Eq)]
pub struct LoginResponse {
    pub access_token: String,
    pub token_type: String,
    pub expires_in: i64,
    pub user_id: i32,
    pub username: String,
}

#[derive(Debug, Clone, PartialEq, Eq)]
pub struct RegisterRequest {
    pub username: String,
    pub email: String,
    pub password: String,
}

/// How long a session token is valid: fifteen minutes, in seconds.
pub const SESSION_SECS: i64 = 900;

/// The status that answers a registration that was stored.
pub const CREATED: u16 = 201;

/// The claims of a session of the user `id`: the identifier in decimal as
/// the subject, the one role `user`, and a window of fifteen minutes.
pub open spec fn session_claims(id: i32, c: ClaimsView) -> bool {
    &&& c.sub == decimal_text(id as int)
    &&& c.roles == seq!["user"@]
    &&& 0 <= c.iat
    &&& c.exp == c.iat + SESSION_SECS
}

/// `r` is the response to a login of `user` with a token over the claims
/// `c`: a bearer token good for fifteen minutes, which, where `c` expires at
/// or after the epoch, verifies to `c` at every time up to that expiry.
pub open spec fn session_response(auth: &JwtAuth, user: User, c: ClaimsView, r: LoginResponse)
    -> bool {
    &&& r.access_token@ == signed_token(auth@, c)
    &&& r.token_type@ == "Bearer"@
    &&& r.expires_in == SESSION_SECS
    &&& r.user_id == user.id
    &&& r.username == user.username
    &&& c.exp >= 0 ==> forall|now: int|
        now <= c.exp ==> #[trigger] auth.spec_verify(r.access_token@, now) == Ok::<
            ClaimsView,
            AppError,
        >(c)
}

/// Claims for a session of the user `id`, issued now.
pub fn new_session_claims(id: i32) -> (r: Claims)
    ensures
        session_claims(id, r@),
{
    let mut roles: Vec<String> = Vec::new();
    roles.push(String::from_str("user"));
    let claims = Claims::new(decimal_string(id), roles, SESSION_SECS);
    assert(claims@.roles =~= seq!["user"@]);
    claims
}

/// Signs `claims` for `user` and builds the response around the token. It
/// always succeeds.
pub fn login_with(jwt_auth: &JwtAuth, user: User, claims: &Claims) -> (r: Result<
    LoginResponse,
    AppError,
>)
    ensures
        r is Ok,
        r matches Ok(resp) ==> session_response(jwt_auth, user, claims@, resp),
{
    match jwt_auth.create_token(claims) {
        Err(e) => Err(e),
        Ok(token) => Ok(
            LoginResponse {
                access_token: token,
                token_type: String::from_str("Bearer"),
                expires_in: SESSION_SECS,
                user_id: user.id,
                username: user.username,
            },
        ),
    }
}

/// Opens a session for a user whose credentials were accepted. It always
/// succeeds: the response names the user and holds a bearer token over
/// fresh session claims, which verifies to those claims until they expire.
pub fn login(jwt_auth: &JwtAuth, user: User) -> (r: Result<LoginResponse, AppError>)
    ensures
        r is Ok,
        r matches Ok(resp) ==> {
            &&& resp.user_id == user.id
            &&& resp.username == user.username
            &&& resp.token_type@ == "Bearer"@
            &&& resp.expires_in == SESSION_SECS
            &&& exists|c: ClaimsView|
                session_claims(user.id, c) && #[trigger] session_response(jwt_auth, user, c, resp)
        },
{
    let claims = new_session_claims(user.id);
    login_with(jwt_auth, user, &claims)
}

/// A login from what the store holds for the name that was given: `user` is
/// the user of that name, if there is one, and `password_hash` the hash
/// stored for it, if any. A user whose stored hash accepts the password gets
/// a session, as `login` gives it; every other login is refused with
/// `AuthenticationFailed`.
pub fn authenticate(
    jwt_auth: &JwtAuth,
    user: Option<User>,
    password_hash: Option<String>,
    password: String,
) -> (r: Result<LoginResponse, AppError>)
    ensures
        match accepted_user(user, password_hash, password@) {
            Some(u) => {
                &&& r matches Ok(resp)
                &&& resp.user_id == u.id
                &&& resp.username == u.username
                &&& resp.token_type@ == "Bearer"@
                &&& resp.expires_in == SESSION_SECS
                &&& exists|c: ClaimsView|
                    session_claims(u.id, c) && #[trigger] session_response(jwt_auth, u, c, resp)
            },
            None => r == Err::<LoginResponse, AppError>(AppError::AuthenticationFailed),
        },
{
    match User::find_by_credentials(user, password_hash, password) {
        Ok(found) => login(jwt_auth, found),
        Err(e) => Err(e),
    }
}

/// Prepares a registration for storing: refused with the message of the
/// first rule it breaks; otherwise the name, the address and a hash that the
/// password checks against. The password itself is not kept.
pub fn register(payload: RegisterRequest) -> (r: Result<StoredCredential, AppError>)
    requires
        hashable(payload.password@),
    ensures
        match registration_fault(payload.username@, payload.email@, payload.password@) {
            Some(text) => r matches Err(AppError::ValidationError(m)) && m@ == text,
            None => {
                &&& r matches Ok(row)
                &&& row.username == payload.username
                &&& row.email == payload.email
                &&& argon2_accepts(row.password_hash@, payload.password@)
            },
        },
{
    let new_user = NewUser {
        username: payload.username,
        email: payload.email,
        password: String::new(),
    };
    User::create(new_user, payload.password)
}

} // verus!
