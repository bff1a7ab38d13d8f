use rustrest::auth::jwt::{Claims, JwtAuth, TokenFault};
use rustrest::auth::rbac::{require_role, Role};
use rustrest::middleware::auth_middleware::{
    auth_middleware, auth_middleware_at, bearer_token, admission_after_check, is_public_path,
    Admission,
};
use rustrest::services::error::AppError;

fn unix_seconds() -> u64 {
    std::time::SystemTime::now()
        .duration_since(std::time::UNIX_EPOCH)
        .expect("clock before the epoch")
        .as_secs()
}

fn claims(roles: &[&str], exp: i64) -> Claims {
    Claims {
        sub: "5".to_string(),
        exp,
        iat: exp - 900,
        jti: "jti".to_string(),
        roles: roles.iter().map(|r| r.to_string()).collect(),
    }
}

fn missing_header() -> Admission {
    Admission::Rejected {
        status: 401,
        body: "Missing or invalid Authorization header".to_string(),
        error: AppError::MissingToken,
        cause: None,
    }
}

fn refused(cause: TokenFault) -> Admission {
    Admission::Rejected {
        status: 401,
        body: "Invalid token".to_string(),
        error: if cause == TokenFault::Expired {
            AppError::TokenExpired
        } else {
            AppError::InvalidToken
        },
        cause: Some(cause),
    }
}

#[test]
fn posts_without_header_is_unauthorized() {
    let auth = JwtAuth::new(b"secret");
    assert_eq!(auth_middleware(&auth, "/posts", None), missing_header());
}

#[test]
fn posts_with_expired_token_is_unauthorized() {
    let auth = JwtAuth::new(b"secret");
    let token = auth.create_token(&claims(&["user"], unix_seconds() as i64 - 1)).expect("token");
    let header = format!("Bearer {}", token);
    assert_eq!(auth_middleware(&auth, "/posts", Some(&header)), refused(TokenFault::Expired));
}

#[test]
fn posts_with_user_token_is_forbidden_for_editors_only() {
    let auth = JwtAuth::new(b"secret");
    let c = claims(&["user"], unix_seconds() as i64 + 600);
    let token = auth.create_token(&c).expect("token");
    let header = format!("Bearer {}", token);
    let outcome = auth_middleware(&auth, "/posts", Some(&header));
    assert_eq!(outcome, Admission::Authenticated(c.clone()));
    let attached = match &outcome {
        Admission::Authenticated(c) => Some(c),
        _ => None,
    };
    let refused = require_role(&Role::Editor, attached);
    assert_eq!(refused, Err(AppError::Forbidden("Requires editor role".to_string())));
    assert_eq!(refused.unwrap_err().into_response().status, 403);
    assert_eq!(require_role(&Role::User, attached), Ok(()));
}

#[test]
fn public_paths_bypass_the_guard() {
    let auth = JwtAuth::new(b"secret");
    assert_eq!(auth_middleware(&auth, "/login", None), Admission::Bypassed);
    assert_eq!(auth_middleware(&auth, "/register", Some("garbage")), Admission::Bypassed);
    assert_eq!(auth_middleware_at(&auth, "/login", Some("Bearer x"), 7), Admission::Bypassed);
    assert!(is_public_path("/login"));
    assert!(is_public_path("/register"));
    assert!(!is_public_path("/login/"));
    assert!(!is_public_path("/Login"));
    assert!(!is_public_path("/posts"));
    assert!(!is_public_path(""));
}

#[test]
fn near_public_paths_are_protected() {
    let auth = JwtAuth::new(b"secret");
    assert_eq!(auth_middleware(&auth, "/login/", None), missing_header());
    assert_eq!(auth_middleware(&auth, "/api/register", None), missing_header());
}

#[test]
fn other_schemes_are_unauthorized() {
    let auth = JwtAuth::new(b"secret");
    assert_eq!(auth_middleware(&auth, "/posts", Some("Basic dXNlcjpwYXNz")), missing_header());
    assert_eq!(auth_middleware(&auth, "/posts", Some("bearer abc")), missing_header());
    assert_eq!(auth_middleware(&auth, "/posts", Some("Bearer")), missing_header());
    assert_eq!(auth_middleware(&auth, "/posts", Some("")), missing_header());
}

#[test]
fn bearer_with_a_bad_token_is_unauthorized() {
    let auth = JwtAuth::new(b"secret");
    assert_eq!(
        auth_middleware(&auth, "/posts", Some("Bearer ")),
        refused(TokenFault::InvalidToken)
    );
    match auth_middleware(&auth, "/posts", Some("Bearer a.b.c")) {
        Admission::Rejected { status, body, error, cause } => {
            assert_eq!(status, 401);
            assert_eq!(body, "Invalid token");
            assert_eq!(error, AppError::InvalidToken);
            assert!(cause.is_some());
            assert_ne!(cause, Some(TokenFault::Expired));
        }
        other => panic!("admitted: {:?}", other),
    }
    let other = JwtAuth::new(b"other");
    let token = other.create_token(&claims(&["admin"], unix_seconds() as i64 + 600)).expect("t");
    assert_eq!(
        auth_middleware(&auth, "/posts", Some(&format!("Bearer {}", token))),
        refused(TokenFault::InvalidSignature)
    );
}

#[test]
fn decision_at_a_given_time() {
    let auth = JwtAuth::new(b"secret");
    let c = claims(&["editor"], 5_000);
    let header = format!("Bearer {}", auth.create_token(&c).expect("token"));
    assert_eq!(
        auth_middleware_at(&auth, "/posts/3", Some(&header), 5_000),
        Admission::Authenticated(c)
    );
    assert_eq!(
        auth_middleware_at(&auth, "/posts/3", Some(&header), 5_001),
        refused(TokenFault::Expired)
    );
    assert_eq!(auth_middleware_at(&auth, "/posts/3", None, 0), missing_header());
}

#[test]
fn bearer_token_is_what_follows_the_scheme() {
    assert_eq!(bearer_token(Some("Bearer abc.def.ghi")), Some("abc.def.ghi"));
    assert_eq!(bearer_token(Some("Bearer ")), Some(""));
    assert_eq!(bearer_token(Some("Bearer  x")), Some(" x"));
    assert_eq!(bearer_token(Some("Bearer é✓")), Some("é✓"));
    assert_eq!(bearer_token(Some("Bearer")), None);
    assert_eq!(bearer_token(Some("bearer abc")), None);
    assert_eq!(bearer_token(Some(" Bearer abc")), None);
    assert_eq!(bearer_token(None), None);
}

#[test]
fn decision_after_the_check() {
    let c = claims(&["user"], 10);
    assert_eq!(admission_after_check(Ok(c.clone())), Admission::Authenticated(c));
    assert_eq!(admission_after_check(Err(TokenFault::Expired)), refused(TokenFault::Expired));
    assert_eq!(admission_after_check(Err(TokenFault::Json)), refused(TokenFault::Json));
    assert_eq!(
        admission_after_check(Err(TokenFault::InvalidSignature)),
        refused(TokenFault::InvalidSignature)
    );
}

#[test]
fn role_guard_without_claims_is_unauthorized() {
    let refused = require_role(&Role::User, None);
    assert_eq!(refused, Err(AppError::Unauthorized("Not authenticated".to_string())));
    assert_eq!(refused.unwrap_err().into_response().status, 401);
}

#[test]
fn role_guard_names_the_required_role() {
    let c = claims(&["editor"], 10);
    assert_eq!(require_role(&Role::Editor, Some(&c)), Ok(()));
    assert_eq!(
        require_role(&Role::Admin, Some(&c)),
        Err(AppError::Forbidden("Requires admin role".to_string()))
    );
    let nobody = claims(&[], 10);
    assert_eq!(
        require_role(&Role::User, Some(&nobody)),
        Err(AppError::Forbidden("Requires user role".to_string()))
    );
    let admin = claims(&["ADMIN"], 10);
    assert_eq!(require_role(&Role::Editor, Some(&admin)), Ok(()));
}
