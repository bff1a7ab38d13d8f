//! The authentication guard: which requests pass unchecked, which carry a
//! token that admits them, and which are turned away.

use crate::auth::jwt::{Claims, ClaimsView, JwtAuth, TokenFault, decoded_token, public_outcome, unix_now};
use crate::services::error::{AppError, UNAUTHORIZED};
use crate::text::{has_prefix, same_text, starts_with, text_of};
use vstd::prelude::*;
use vstd::string::{StrSliceExecFns, StringExecFns};

verus! {

/// Where the guard leaves a request.
#[derive(Debug, Clone, PartialEq, Eq)]
pub enum Admission {
    /// A public path: the request goes on as it came.
    Bypassed,
    /// The token checked out: the request goes on with these claims attached.
    Authenticated(Claims),
    /// The request is answered at once, with this status and body. `error`
    /// is the error that refused it, and `cause` says why a token that was
    /// presented did not check out.
    Rejected { status: u16, body: String, error: AppError, cause: Option<TokenFault> },
}

/// The mathematical content of an `Admission`.
pub ghost enum AdmissionView {
    Bypassed,
    Authenticated(ClaimsView),
    Rejected { status: int, body: Seq<char>, error: AppError, cause: Option<TokenFault> },
}

impl View for Admission {
    type V = AdmissionView;

    open spec fn view(&self) -> AdmissionView {
        match self {
            Admission::Bypassed => AdmissionView::Bypassed,
            Admission::Authenticated(c) => AdmissionView::Authenticated(c@),
            Admission::Rejected { status, body, error, cause } => AdmissionView::Rejected {
                status: *status as int,
                body: body@,
                error: *error,
                cause: *cause,
            },
        }
    }
}

impl Admission {
    /// Why the token of a rejected request did not check out, if it had one.
    pub open spec fn spec_cause(&self) -> Option<TokenFault> {
        match self {
            Admission::Rejected { cause, .. } => *cause,
            _ => None,
        }
    }
}

/// The paths that need no token.
pub open spec fn is_public(path: Seq<char>) -> bool {
    path == "/login"@ || path == "/register"@
}

/// The token that an `Authorization` value carries: what follows the scheme
/// `Bearer `, if the value begins with it.
pub open spec fn bearer_of(header: Option<Seq<char>>) -> Option<Seq<char>> {
    match header {
        Some(h) => if has_prefix(h, "Bearer "@) {
            Some(h.subrange("Bearer "@.len() as int, h.len() as int))
        } else {
            None
        },
        None => None,
    }
}

/// The rejection for a token that did not check out, with its error and
/// its cause.
pub open spec fn invalid_token(error: AppError, cause: Option<TokenFault>) -> AdmissionView {
    AdmissionView::Rejected { status: UNAUTHORIZED as int, body: "Invalid token"@, error, cause }
}

/// The rejection for a missing header or another scheme.
pub open spec fn missing_header() -> AdmissionView {
    AdmissionView::Rejected {
        status: UNAUTHORIZED as int,
        body: "Missing or invalid Authorization header"@,
        error: AppError::MissingToken,
        cause: None,
    }
}

/// What the guard decides once the token's check is known; `cause` is why
/// a token was refused.
pub open spec fn after_check(checked: Result<ClaimsView, AppError>, cause: Option<TokenFault>)
    -> AdmissionView {
    match checked {
        Ok(c) => AdmissionView::Authenticated(c),
        Err(e) => invalid_token(e, cause),
    }
}

/// What the guard decides for a request with this path and `Authorization`
/// value when the clock reads `now`; `cause` is why a token was refused.
pub open spec fn spec_admission(
    auth: &JwtAuth,
    path: Seq<char>,
    header: Option<Seq<char>>,
    now: int,
    cause: Option<TokenFault>,
) -> AdmissionView {
    if is_public(path) {
        AdmissionView::Bypassed
    } else {
        match bearer_of(header) {
            Some(token) => after_check(auth.spec_verify(token, now), cause),
            None => missing_header(),
        }
    }
}

/// The cause goes with the decision: a request is rejected with a cause
/// exactly when its token was refused, and the cause's public error is the
/// error of the rejection.
pub open spec fn cause_fits(decision: AdmissionView) -> bool {
    match decision {
        AdmissionView::Rejected { status, body, error, cause } => match cause {
            Some(f) => f.spec_error() == error,
            None => error == AppError::MissingToken,
        },
        _ => true,
    }
}

/// Whether the path needs no token.
pub fn is_public_path(path: &str) -> (r: bool)
    ensures
        r == is_public(path@),
{
    same_text(path, "/login") || same_text(path, "/register")
}

/// The token of an `Authorization` value with the scheme `Bearer `.
pub fn bearer_token<'a>(header: Option<&'a str>) -> (r: Option<&'a str>)
    ensures
        text_of(r) == bearer_of(text_of(header)),
{
    match header {
        Some(value) => {
            if starts_with(value, "Bearer ") {
                proof {
                    reveal_strlit("Bearer ");
                }
                let n: usize = value.unicode_len();
                Some(value.substring_char(7, n))
            } else {
                None
            }
        },
        None => None,
    }
}

/// The guard's decision from the result of the token's check: claims admit
/// the request, every failure is answered 401 and keeps its cause.
pub fn admission_after_check(checked: Result<Claims, TokenFault>) -> (r: Admission)
    ensures
        r@ == after_check(public_outcome(checked), r.spec_cause()),
        checked matches Ok(c) ==> r == Admission::Authenticated(c),
        checked matches Err(f) ==> r.spec_cause() == Some(f),
{
    match checked {
        Ok(claims) => Admission::Authenticated(claims),
        Err(fault) => Admission::Rejected {
            status: UNAUTHORIZED,
            body: String::from_str("Invalid token"),
            error: fault.error(),
            cause: Some(fault),
        },
    }
}

/// The guard's decision for a request as of the time `now`.
pub fn auth_middleware_at(jwt_auth: &JwtAuth, path: &str, header: Option<&str>, now: u64) -> (r:
    Admission)
    ensures
        r@ == spec_admission(jwt_auth, path@, text_of(header), now as int, r.spec_cause()),
        cause_fits(r@),
{
    if is_public_path(path) {
        return Admission::Bypassed;
    }
    match bearer_token(header) {
        Some(token) => admission_after_check(jwt_auth.verify_with_cause_at(token, now)),
        None => Admission::Rejected {
            status: UNAUTHORIZED,
            body: String::from_str("Missing or invalid Authorization header"),
            error: AppError::MissingToken,
            cause: None,
        },
    }
}

/// The guard's decision for a request as of the clock's present reading: that
/// of `auth_middleware_at` for some time `now`.
pub fn auth_middleware(jwt_auth: &JwtAuth, path: &str, header: Option<&str>) -> (r: Admission)
    ensures
        exists|now: int|
            0 <= now && r@ == #[trigger] spec_admission(
                jwt_auth,
                path@,
                text_of(header),
                now,
                r.spec_cause(),
            ),
        cause_fits(r@),
{
    let now: u64 = unix_now();
    let r = auth_middleware_at(jwt_auth, path, header, now);
    assert(r@ == spec_admission(jwt_auth, path@, text_of(header), now as int, r.spec_cause()));
    r
}

/// On a public path the guard lets every request through, whatever it carries.
pub proof fn public_paths_bypass(
    auth: &JwtAuth,
    path: Seq<char>,
    header: Option<Seq<char>>,
    now: int,
    cause: Option<TokenFault>,
)
    requires
        is_public(path),
    ensures
        spec_admission(auth, path, header, now, cause) == AdmissionView::Bypassed,
{
}

/// On every other path the guard admits a request only with claims that its
/// bearer token carries under the service's secret and that have not expired;
/// a request without such a token is answered 401, with `MissingToken` where
/// it has no bearer token, `TokenExpired` where the token's claims have
/// expired and `InvalidToken` where the token does not decode.
pub proof fn protected_paths_need_a_valid_token(
    auth: &JwtAuth,
    path: Seq<char>,
    header: Option<Seq<char>>,
    now: int,
    cause: Option<TokenFault>,
)
    requires
        !is_public(path),
    ensures
        match spec_admission(auth, path, header, now, cause) {
            AdmissionView::Bypassed => false,
            AdmissionView::Authenticated(c) => {
                &&& bearer_of(header) matches Some(token)
                &&& decoded_token(auth@, token) == Some(c)
                &&& now <= c.exp
            },
            AdmissionView::Rejected { status, body, error, cause } => {
                &&& status == 401
                &&& match bearer_of(header) {
                    None => error == AppError::MissingToken && body
                        == "Missing or invalid Authorization header"@,
                    Some(token) => body == "Invalid token"@ && match decoded_token(auth@, token) {
                        Some(c) => c.exp < now && error == AppError::TokenExpired,
                        None => error == AppError::InvalidToken,
                    },
                }
            },
        },
{
}

} // verus!
