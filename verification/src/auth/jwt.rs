//! Session tokens: the claims a token asserts, and the service that signs
//! claims into a compact token and checks a token back into claims.

use crate::services::error::AppError;
use crate::text::text_of;
use vstd::prelude::*;
use vstd::slice::slice_to_vec;

verus! {

/// The identity that a token asserts.
#[derive(Debug, Clone, PartialEq, Eq)]
pub struct Claims {
    /// The user's identifier.
    pub sub: String,
    /// Expiry, in seconds since the epoch.
    pub exp: i64,
    /// Time of issue, in seconds since the epoch.
    pub iat: i64,
    /// The token's own identifier.
    pub jti: String,
    /// The user's role names.
    pub roles: Vec<String>,
}

/// The mathematical content of a `Claims` value.
pub ghost struct ClaimsView {
    pub sub: Seq<char>,
    pub exp: int,
    pub iat: int,
    pub jti: Seq<char>,
    pub roles: Seq<Seq<char>>,
}

/// The character sequences of a list of strings.
pub open spec fn names_of(roles: Seq<String>) -> Seq<Seq<char>> {
    Seq::new(roles.len(), |i: int| roles[i]@)
}

impl View for Claims {
    type V = ClaimsView;

    open spec fn view(&self) -> ClaimsView {
        ClaimsView {
            sub: self.sub@,
            exp: self.exp as int,
            iat: self.iat as int,
            jti: self.jti@,
            roles: names_of(self.roles@),
        }
    }
}

/// The longest validity window that can be asked for, in seconds: with it
/// the expiry fits 64 bits whatever the clock reads.
pub const MAX_VALIDITY_SECS: i64 = 9_223_372_036_854_775;

/// Why a token was refused: the underlying cause, for the log.
#[derive(Debug, Clone, Copy, PartialEq, Eq, Structural)]
pub enum TokenFault {
    /// The token is sound but its expiry has passed.
    Expired,
    /// The token is not three parts divided by dots.
    InvalidToken,
    /// The signature is not the one that the secret gives.
    InvalidSignature,
    /// The header names another algorithm than HS256.
    InvalidAlgorithm,
    /// The payload has no `exp` that can be read as a time.
    MissingRequiredClaim,
    /// The payload is addressed to an audience.
    InvalidAudience,
    /// A part is not base64.
    Base64,
    /// A part is not the JSON that is expected.
    Json,
    /// A part is not UTF-8.
    Utf8,
    /// The signature could not be computed.
    Crypto,
    /// Any other failure of decoding.
    Other,
}

impl TokenFault {
    /// The public error for the fault: `TokenExpired` for an expired token,
    /// `InvalidToken` for every other fault.
    pub open spec fn spec_error(&self) -> AppError {
        match self {
            TokenFault::Expired => AppError::TokenExpired,
            _ => AppError::InvalidToken,
        }
    }

    pub fn error(&self) -> (r: AppError)
        ensures
            r == self.spec_error(),
    {
        match self {
            TokenFault::Expired => AppError::TokenExpired,
            _ => AppError::InvalidToken,
        }
    }
}

/// A verification result with its cause, as the public result.
pub open spec fn public_outcome(r: Result<Claims, TokenFault>) -> Result<ClaimsView, AppError> {
    match r {
        Ok(c) => Ok(c@),
        Err(f) => Err(f.spec_error()),
    }
}

/// The token that HS256 signing with `secret` gives for `claims`.
pub uninterp spec fn signed_token(secret: Seq<u8>, claims: ClaimsView) -> Seq<char>;

/// The claims that `token` carries if its HS256 signature under `secret` and
/// its structure hold, whatever its expiry; `None` if they do not.
pub uninterp spec fn decoded_token(secret: Seq<u8>, token: Seq<char>) -> Option<ClaimsView>;

/// What checking a token at time `now` gives, from what decoding it gave.
pub open spec fn checked_at(decoded: Option<ClaimsView>, now: int) -> Result<ClaimsView, AppError> {
    match decoded {
        None => Err(AppError::InvalidToken),
        Some(c) => if c.exp < now {
            Err(AppError::TokenExpired)
        } else {
            Ok(c)
        },
    }
}

/// The mathematical content of a verification result.
pub open spec fn outcome_view(r: Result<Claims, AppError>) -> Result<ClaimsView, AppError> {
    match r {
        Ok(c) => Ok(c@),
        Err(e) => Err(e),
    }
}

/// Calls `jsonwebtoken::encode` with the default header (HS256), the claims as
/// a JSON object and the secret as the key. Trusted: with a secret for a key
/// and such a payload neither serialising nor signing has a failure, so a
/// token always comes back; it is a function of secret and claims alone;
/// decoding it under the same secret gives the same claims back where `exp`
/// is not negative, and fails where it is, since `exp` is read as unsigned.
#[verifier::external_body]
fn encode_hs256(secret: &[u8], claims: &Claims) -> (r: Option<String>)
    ensures
        r is Some,
        r matches Some(t) ==> t@ == signed_token(secret@, claims@),
        r matches Some(t) ==> claims.exp >= 0 ==> decoded_token(secret@, t@) == Some(claims@),
        r matches Some(t) ==> claims.exp < 0 ==> decoded_token(secret@, t@) is None,
{
    let mut payload = serde_json::Map::new();
    payload.insert("sub".to_owned(), serde_json::Value::from(claims.sub.as_str()));
    payload.insert("exp".to_owned(), serde_json::Value::from(claims.exp));
    payload.insert("iat".to_owned(), serde_json::Value::from(claims.iat));
    payload.insert("jti".to_owned(), serde_json::Value::from(claims.jti.as_str()));
    payload.insert("roles".to_owned(), serde_json::Value::from(claims.roles.clone()));
    let key = jsonwebtoken::EncodingKey::from_secret(secret);
    jsonwebtoken::encode(&jsonwebtoken::Header::default(), &payload, &key).ok()
}

/// The error type of the token library, carried from decoding to `fault_of`.
#[verifier::external_type_specification]
#[verifier::external_body]
pub struct ExTokenError(jsonwebtoken::errors::Error);

/// Calls `jsonwebtoken::decode` with the default validation (HS256, `exp`
/// required) but for the comparison of `exp` with the clock, which is left to
/// the caller. Trusted: whether claims come back, and which, is a function of
/// secret and token alone.
#[verifier::external_body]
fn decode_hs256(secret: &[u8], token: &str) -> (r: Result<Claims, jsonwebtoken::errors::Error>)
    ensures
        match r {
            Ok(c) => decoded_token(secret@, token@) == Some(c@),
            Err(_) => decoded_token(secret@, token@) is None,
        },
{
    let mut validation = jsonwebtoken::Validation::default();
    validation.validate_exp = false;
    let key = jsonwebtoken::DecodingKey::from_secret(secret);
    let body = jsonwebtoken::decode::<serde_json::Value>(token, &key, &validation)?.claims;
    Ok(Claims {
        sub: serde_json::from_value(body["sub"].clone())?,
        exp: serde_json::from_value(body["exp"].clone())?,
        iat: serde_json::from_value(body["iat"].clone())?,
        jti: serde_json::from_value(body["jti"].clone())?,
        roles: serde_json::from_value(body["roles"].clone())?,
    })
}

/// Tells the kinds of `jsonwebtoken::errors::Error` apart by its `kind`.
/// Trusted: the result is never `Expired`, which no arm gives.
#[verifier::external_body]
fn fault_of(error: &jsonwebtoken::errors::Error) -> (r: TokenFault)
    ensures
        r != TokenFault::Expired,
{
    match error.kind() {
        jsonwebtoken::errors::ErrorKind::InvalidToken => TokenFault::InvalidToken,
        jsonwebtoken::errors::ErrorKind::InvalidSignature => TokenFault::InvalidSignature,
        jsonwebtoken::errors::ErrorKind::InvalidAlgorithm => TokenFault::InvalidAlgorithm,
        jsonwebtoken::errors::ErrorKind::MissingRequiredClaim(_) => TokenFault::MissingRequiredClaim,
        jsonwebtoken::errors::ErrorKind::InvalidAudience => TokenFault::InvalidAudience,
        jsonwebtoken::errors::ErrorKind::Base64(_) => TokenFault::Base64,
        jsonwebtoken::errors::ErrorKind::Json(_) => TokenFault::Json,
        jsonwebtoken::errors::ErrorKind::Utf8(_) => TokenFault::Utf8,
        jsonwebtoken::errors::ErrorKind::Crypto(_) => TokenFault::Crypto,
        _ => TokenFault::Other,
    }
}

/// Calls `jsonwebtoken::get_current_timestamp`: the clock's seconds since the
/// epoch. Nothing is claimed of the value.
#[verifier::external_body]
pub(crate) fn unix_now() -> (r: u64) {
    jsonwebtoken::get_current_timestamp()
}

/// Calls `chrono::Utc::now` and takes its `timestamp`. Trusted: the clock is
/// not before the epoch and the day number fits chrono's 32-bit day count.
#[verifier::external_body]
fn utc_timestamp() -> (r: i64)
    ensures
        0 <= r < 86_400 * 0x8000_0000,
{
    chrono::Utc::now().timestamp()
}

/// Calls `uuid::Uuid::new_v4` and writes the identifier in its hyphenated
/// form. Trusted: that form has 36 characters.
#[verifier::external_body]
fn fresh_token_id() -> (r: String)
    ensures
        r@.len() == 36,
{
    uuid::Uuid::new_v4().to_string()
}

impl Claims {
    /// `iat` lies strictly before `exp`.
    pub open spec fn is_well_formed(&self) -> bool {
        self.iat < self.exp
    }

    /// Claims for `user_id` issued at `now` under the identifier `token_id`,
    /// valid for `expiration` seconds.
    pub fn issued_at(
        user_id: String,
        roles: Vec<String>,
        now: i64,
        token_id: String,
        expiration: i64,
    ) -> (r: Claims)
        requires
            0 < expiration,
            now + expiration <= i64::MAX,
        ensures
            r.sub == user_id,
            r.roles == roles,
            r.jti == token_id,
            r.iat == now,
            r.exp == now + expiration,
            r.is_well_formed(),
    {
        Claims { sub: user_id, exp: now + expiration, iat: now, jti: token_id, roles }
    }

    /// Claims for `user_id` issued now under a fresh identifier, valid for
    /// `expiration` seconds.
    pub fn new(user_id: String, roles: Vec<String>, expiration: i64) -> (r: Claims)
        requires
            0 < expiration <= MAX_VALIDITY_SECS,
        ensures
            r.sub == user_id,
            r.roles == roles,
            r.jti@.len() == 36,
            r.iat >= 0,
            r.exp == r.iat + expiration,
            r.is_well_formed(),
    {
        let now: i64 = utc_timestamp();
        let token_id: String = fresh_token_id();
        Claims::issued_at(user_id, roles, now, token_id, expiration)
    }
}

/// The token service: signs and checks tokens under one secret.
#[derive(Clone)]
pub struct JwtAuth {
    secret: Vec<u8>,
}

impl View for JwtAuth {
    type V = Seq<u8>;

    closed spec fn view(&self) -> Seq<u8> {
        self.secret@
    }
}

impl JwtAuth {
    /// What `verify_token` gives for `token` when the clock reads `now`.
    pub open spec fn spec_verify(&self, token: Seq<char>, now: int) -> Result<ClaimsView, AppError> {
        checked_at(decoded_token(self@, token), now)
    }

    pub fn new(secret: &[u8]) -> (r: JwtAuth)
        ensures
            r@ == secret@,
    {
        JwtAuth { secret: slice_to_vec(secret) }
    }

    /// The result of issuing, from what signing gave: the token, or
    /// `TokenCreation` where signing gave none.
    pub fn token_or_fault(signed: Option<String>) -> (r: Result<String, AppError>)
        ensures
            r == match signed {
                Some(t) => Ok::<String, AppError>(t),
                None => Err::<String, AppError>(AppError::TokenCreation),
            },
    {
        match signed {
            Some(t) => Ok(t),
            None => Err(AppError::TokenCreation),
        }
    }

    /// Signs `claims` into a token, and always gives one. The token carries,
    /// under this service's secret, the same claims, where they expire at or
    /// after the epoch: it verifies to them at every time up to their expiry
    /// and is refused as expired after it. A token over claims that expire
    /// before the epoch is refused as invalid at every time.
    pub fn create_token(&self, claims: &Claims) -> (r: Result<String, AppError>)
        ensures
            r is Ok,
            r matches Ok(t) ==> {
                &&& t@ == signed_token(self@, claims@)
                &&& decoded_token(self@, t@) == if claims.exp >= 0 {
                    Some(claims@)
                } else {
                    None::<ClaimsView>
                }
                &&& forall|now: int|
                    #![trigger self.spec_verify(t@, now)]
                    self.spec_verify(t@, now) == if claims.exp < 0 {
                        Err::<ClaimsView, AppError>(AppError::InvalidToken)
                    } else if now <= claims.exp {
                        Ok::<ClaimsView, AppError>(claims@)
                    } else {
                        Err::<ClaimsView, AppError>(AppError::TokenExpired)
                    }
            },
    {
        JwtAuth::token_or_fault(encode_hs256(self.secret.as_slice(), claims))
    }

    /// The result of checking a token at time `now`, from what decoding it
    /// gave: a failure of decoding stands, claims whose expiry lies before
    /// `now` are refused as `Expired`, and other claims come back unchanged.
    pub fn check_expiry(decoded: Result<Claims, TokenFault>, now: u64) -> (r: Result<
        Claims,
        TokenFault,
    >)
        ensures
            r == match decoded {
                Err(f) => Err::<Claims, TokenFault>(f),
                Ok(c) => if c.exp < now {
                    Err::<Claims, TokenFault>(TokenFault::Expired)
                } else {
                    Ok::<Claims, TokenFault>(c)
                },
            },
    {
        match decoded {
            Err(f) => Err(f),
            Ok(c) => {
                if c.exp < 0 || (c.exp as u64) < now {
                    Err(TokenFault::Expired)
                } else {
                    Ok(c)
                }
            },
        }
    }

    /// Checks `token` as of the time `now` and, where it is refused, says
    /// why. The cause is `Expired` exactly for a token that decodes and has
    /// expired; its public error is what `verify_token_at` gives.
    pub fn verify_with_cause_at(&self, token: &str, now: u64) -> (r: Result<Claims, TokenFault>)
        ensures
            public_outcome(r) == self.spec_verify(token@, now as int),
    {
        match decode_hs256(self.secret.as_slice(), token) {
            Ok(c) => JwtAuth::check_expiry(Ok(c), now),
            Err(e) => Err(fault_of(&e)),
        }
    }

    /// Checks `token` as of the clock's present reading and, where it is
    /// refused, says why: the result is that of `verify_with_cause_at` for
    /// some time `now`.
    pub fn verify_with_cause(&self, token: &str) -> (r: Result<Claims, TokenFault>)
        ensures
            exists|now: int|
                0 <= now && public_outcome(r) == #[trigger] self.spec_verify(token@, now),
            decoded_token(self@, token@) is None ==> r is Err && r != Err::<Claims, TokenFault>(
                TokenFault::Expired,
            ),
    {
        let now: u64 = unix_now();
        let r = self.verify_with_cause_at(token, now);
        assert(public_outcome(r) == self.spec_verify(token@, now as int));
        r
    }

    /// The public result of a check, from the result with its cause.
    pub fn without_cause(checked: Result<Claims, TokenFault>) -> (r: Result<Claims, AppError>)
        ensures
            r == match checked {
                Ok(c) => Ok::<Claims, AppError>(c),
                Err(f) => Err::<Claims, AppError>(f.spec_error()),
            },
    {
        match checked {
            Ok(c) => Ok(c),
            Err(f) => Err(f.error()),
        }
    }

    /// Checks `token` as of the time `now`.
    pub fn verify_token_at(&self, token: &str, now: u64) -> (r: Result<Claims, AppError>)
        ensures
            outcome_view(r) == self.spec_verify(token@, now as int),
    {
        JwtAuth::without_cause(self.verify_with_cause_at(token, now))
    }

    /// Checks `token` as of the clock's present reading: the result is that
    /// of `verify_token_at` for some time `now`.
    pub fn verify_token(&self, token: &str) -> (r: Result<Claims, AppError>)
        ensures
            exists|now: int| 0 <= now && outcome_view(r) == #[trigger] self.spec_verify(token@, now),
            decoded_token(self@, token@) is None ==> r == Err::<Claims, AppError>(
                AppError::InvalidToken,
            ),
    {
        let now: u64 = unix_now();
        let r = self.verify_token_at(token, now);
        assert(outcome_view(r) == self.spec_verify(token@, now as int));
        r
    }
}

/// What the extractor of claims gives for a request whose bearer token is
/// `bearer`, if it has one, when the clock reads `now`.
pub open spec fn spec_extract(bearer: Option<Seq<char>>, auth: Option<&JwtAuth>, now: int) -> Result<
    ClaimsView,
    AppError,
> {
    match bearer {
        None => Err(AppError::MissingToken),
        Some(token) => match auth {
            None => Err(AppError::MissingAuthService),
            Some(service) => service.spec_verify(token, now),
        },
    }
}

impl Claims {
    /// The claims of a request for a protected route: `MissingToken` where
    /// the request has no bearer token, `MissingAuthService` where no token
    /// service was attached to it, and otherwise what the service makes of
    /// the token at the clock's present reading.
    pub fn from_request_parts(bearer: Option<&str>, jwt_auth: Option<&JwtAuth>) -> (r: Result<
        Claims,
        AppError,
    >)
        ensures
            exists|now: int|
                0 <= now && outcome_view(r) == #[trigger] spec_extract(
                    text_of(bearer),
                    jwt_auth,
                    now,
                ),
    {
        let ghost tokens: Option<Seq<char>> = text_of(bearer);
        match bearer {
            None => {
                assert(outcome_view(Err(AppError::MissingToken)) == spec_extract(tokens, jwt_auth, 0));
                Err(AppError::MissingToken)
            },
            Some(token) => match jwt_auth {
                None => {
                    assert(outcome_view(Err(AppError::MissingAuthService)) == spec_extract(
                        tokens,
                        jwt_auth,
                        0,
                    ));
                    Err(AppError::MissingAuthService)
                },
                Some(service) => {
                    let r = service.verify_token(token);
                    let ghost now: int = choose|now: int|
                        0 <= now && outcome_view(r) == #[trigger] service.spec_verify(token@, now);
                    assert(outcome_view(r) == spec_extract(tokens, jwt_auth, now));
                    r
                },
            },
        }
    }
}

/// A token that carries claims under the service's secret verifies to
/// exactly those claims at every time up to their expiry, the expiry itself
/// included.
pub proof fn unexpired_token_verifies(auth: &JwtAuth, token: Seq<char>, claims: ClaimsView, now: int)
    requires
        decoded_token(auth@, token) == Some(claims),
        now <= claims.exp,
    ensures
        auth.spec_verify(token, now) == Ok::<ClaimsView, AppError>(claims),
{
}

/// A token whose claims have expired is refused with `TokenExpired`, from
/// the first second after the expiry on.
pub proof fn expired_token_is_refused(auth: &JwtAuth, token: Seq<char>, claims: ClaimsView, now: int)
    requires
        decoded_token(auth@, token) == Some(claims),
        claims.exp < now,
    ensures
        auth.spec_verify(token, now) == Err::<ClaimsView, AppError>(AppError::TokenExpired),
{
}

/// A token that does not decode under the service's secret is refused with
/// `InvalidToken` at every time, expired or not.
pub proof fn undecodable_token_is_invalid(auth: &JwtAuth, token: Seq<char>, now: int)
    requires
        decoded_token(auth@, token) is None,
    ensures
        auth.spec_verify(token, now) == Err::<ClaimsView, AppError>(AppError::InvalidToken),
{
}

/// Verification never gives any error but `InvalidToken` and `TokenExpired`,
/// and claims that it gives are those that the token carries.
pub proof fn verification_outcomes(auth: &JwtAuth, token: Seq<char>, now: int)
    ensures
        match auth.spec_verify(token, now) {
            Ok(c) => decoded_token(auth@, token) == Some(c) && now <= c.exp,
            Err(e) => e == AppError::InvalidToken || e == AppError::TokenExpired,
        },
{
}

} // verus!
