use rustrest::auth::jwt::{Claims, JwtAuth, TokenFault};
use rustrest::services::error::AppError;

fn unix_seconds() -> u64 {
    std::time::SystemTime::now()
        .duration_since(std::time::UNIX_EPOCH)
        .expect("clock before the epoch")
        .as_secs()
}

fn claims_expiring_at(exp: i64) -> Claims {
    Claims {
        sub: "42".to_string(),
        exp,
        iat: exp - 900,
        jti: "b5f0c1d2-0000-4000-8000-000000000001".to_string(),
        roles: vec!["user".to_string(), "Editor".to_string(), "user".to_string()],
    }
}

#[test]
fn issued_token_verifies_to_the_same_claims() {
    let auth = JwtAuth::new(b"a secret of the operator");
    let claims = claims_expiring_at(unix_seconds() as i64 + 600);
    let token = auth.create_token(&claims).expect("token");
    assert_eq!(auth.verify_token(&token), Ok(claims));
}

#[test]
fn new_claims_round_trip() {
    let auth = JwtAuth::new(b"k");
    let claims = Claims::new("9".to_string(), vec![], 900);
    let token = auth.create_token(&claims).expect("token");
    assert_eq!(auth.verify_token(&token), Ok(claims));
}

#[test]
fn token_is_a_compact_string_of_three_parts() {
    let auth = JwtAuth::new(b"secret");
    let claims = claims_expiring_at(2_000_000_000);
    let token = auth.create_token(&claims).expect("token");
    let parts: Vec<&str> = token.split('.').collect();
    assert_eq!(parts.len(), 3);
    assert_eq!(parts[0], "eyJ0eXAiOiJKV1QiLCJhbGciOiJIUzI1NiJ9");
    assert!(parts.iter().all(|p| !p.is_empty()));
    assert_ne!(token, claims.sub);
}

#[test]
fn signing_is_a_function_of_secret_and_claims() {
    let claims = claims_expiring_at(2_000_000_000);
    let one = JwtAuth::new(b"secret").create_token(&claims).expect("token");
    let two = JwtAuth::new(b"secret").create_token(&claims).expect("token");
    let other = JwtAuth::new(b"another").create_token(&claims).expect("token");
    assert_eq!(one, two);
    assert_ne!(one, other);
}

#[test]
fn token_expired_one_second_ago_is_refused() {
    let auth = JwtAuth::new(b"secret");
    let now = unix_seconds();
    let claims = claims_expiring_at(now as i64 - 1);
    let token = auth.create_token(&claims).expect("token");
    assert_eq!(auth.verify_token(&token), Err(AppError::TokenExpired));
    assert_eq!(auth.verify_token_at(&token, now), Err(AppError::TokenExpired));
}

#[test]
fn expiry_has_no_leeway() {
    let auth = JwtAuth::new(b"secret");
    let claims = claims_expiring_at(1_700_000_000);
    let token = auth.create_token(&claims).expect("token");
    assert_eq!(auth.verify_token_at(&token, 1_699_999_999), Ok(claims.clone()));
    assert_eq!(auth.verify_token_at(&token, 1_700_000_000), Ok(claims.clone()));
    assert_eq!(auth.verify_token_at(&token, 1_700_000_001), Err(AppError::TokenExpired));
    assert_eq!(auth.verify_token_at(&token, 0), Ok(claims));
}

#[test]
fn token_under_another_secret_is_invalid() {
    let issuer = JwtAuth::new(b"one secret");
    let checker = JwtAuth::new(b"another secret");
    let claims = claims_expiring_at(unix_seconds() as i64 + 600);
    let token = issuer.create_token(&claims).expect("token");
    assert_eq!(checker.verify_token(&token), Err(AppError::InvalidToken));
    assert_eq!(checker.verify_token_at(&token, 0), Err(AppError::InvalidToken));
}

#[test]
fn expired_token_under_another_secret_is_invalid_not_expired() {
    let issuer = JwtAuth::new(b"one secret");
    let checker = JwtAuth::new(b"another secret");
    let token = issuer.create_token(&claims_expiring_at(1_000)).expect("token");
    assert_eq!(checker.verify_token(&token), Err(AppError::InvalidToken));
}

#[test]
fn malformed_tokens_are_invalid() {
    let auth = JwtAuth::new(b"secret");
    assert_eq!(auth.verify_token(""), Err(AppError::InvalidToken));
    assert_eq!(auth.verify_token("not a token"), Err(AppError::InvalidToken));
    assert_eq!(auth.verify_token("a.b.c"), Err(AppError::InvalidToken));
    assert_eq!(auth.verify_token("a.b"), Err(AppError::InvalidToken));
}

#[test]
fn tampered_token_is_invalid() {
    let auth = JwtAuth::new(b"secret");
    let token = auth.create_token(&claims_expiring_at(unix_seconds() as i64 + 600)).expect("token");
    let mut tampered = token.clone();
    let last = tampered.pop().expect("a last character");
    tampered.push(if last == 'A' { 'B' } else { 'A' });
    assert_eq!(auth.verify_token(&tampered), Err(AppError::InvalidToken));
}

#[test]
fn token_with_negative_expiry_is_invalid() {
    let auth = JwtAuth::new(b"secret");
    let token = auth.create_token(&claims_expiring_at(-5)).expect("token");
    assert_eq!(auth.verify_token_at(&token, 0), Err(AppError::InvalidToken));
}

#[test]
fn same_token_verifies_every_time() {
    let auth = JwtAuth::new(b"secret");
    let claims = claims_expiring_at(unix_seconds() as i64 + 600);
    let token = auth.create_token(&claims).expect("token");
    let shared = &auth;
    let first = shared.verify_token(&token);
    let second = shared.verify_token(&token);
    assert_eq!(first, Ok(claims.clone()));
    assert_eq!(second, Ok(claims));
}

#[test]
fn check_expiry_decides_from_the_decoded_claims() {
    let claims = claims_expiring_at(500);
    assert_eq!(JwtAuth::check_expiry(Err(TokenFault::Json), 0), Err(TokenFault::Json));
    assert_eq!(
        JwtAuth::check_expiry(Err(TokenFault::InvalidSignature), u64::MAX),
        Err(TokenFault::InvalidSignature)
    );
    assert_eq!(JwtAuth::check_expiry(Ok(claims.clone()), 500), Ok(claims.clone()));
    assert_eq!(JwtAuth::check_expiry(Ok(claims.clone()), 501), Err(TokenFault::Expired));
    assert_eq!(JwtAuth::check_expiry(Ok(claims_expiring_at(-1)), 0), Err(TokenFault::Expired));
    assert_eq!(JwtAuth::check_expiry(Ok(claims.clone()), u64::MAX), Err(TokenFault::Expired));
    assert_eq!(
        JwtAuth::check_expiry(Ok(claims_expiring_at(i64::MAX)), i64::MAX as u64),
        Ok(claims_expiring_at(i64::MAX))
    );
}

#[test]
fn faults_map_to_the_public_errors() {
    assert_eq!(TokenFault::Expired.error(), AppError::TokenExpired);
    for fault in [
        TokenFault::InvalidToken,
        TokenFault::InvalidSignature,
        TokenFault::InvalidAlgorithm,
        TokenFault::MissingRequiredClaim,
        TokenFault::InvalidAudience,
        TokenFault::Base64,
        TokenFault::Json,
        TokenFault::Utf8,
        TokenFault::Crypto,
        TokenFault::Other,
    ] {
        assert_eq!(fault.error(), AppError::InvalidToken);
        assert_eq!(JwtAuth::without_cause(Err(fault)), Err(AppError::InvalidToken));
    }
    let claims = claims_expiring_at(5);
    assert_eq!(JwtAuth::without_cause(Ok(claims.clone())), Ok(claims));
    assert_eq!(JwtAuth::without_cause(Err(TokenFault::Expired)), Err(AppError::TokenExpired));
}

#[test]
fn refusals_say_why() {
    let auth = JwtAuth::new(b"secret");
    let claims = claims_expiring_at(1_000);
    let token = auth.create_token(&claims).expect("token");
    assert_eq!(auth.verify_with_cause_at(&token, 1_000), Ok(claims.clone()));
    assert_eq!(auth.verify_with_cause_at(&token, 1_001), Err(TokenFault::Expired));
    assert_eq!(auth.verify_with_cause(&token), Err(TokenFault::Expired));
    let other = JwtAuth::new(b"other");
    assert_eq!(other.verify_with_cause_at(&token, 0), Err(TokenFault::InvalidSignature));
    assert_eq!(other.verify_with_cause(&token), Err(TokenFault::InvalidSignature));
    assert_eq!(auth.verify_with_cause_at("", 0), Err(TokenFault::InvalidToken));
    assert_eq!(auth.verify_with_cause_at("a.b", 0), Err(TokenFault::InvalidToken));
    assert_eq!(auth.verify_with_cause_at("!.!.!", 0), Err(TokenFault::Base64));
    let negative = auth.create_token(&claims_expiring_at(-5)).expect("token");
    assert_eq!(auth.verify_with_cause_at(&negative, 0), Err(TokenFault::MissingRequiredClaim));
}

#[test]
fn tokens_of_other_shapes_are_refused_with_their_cause() {
    let secret = b"secret";
    let auth = JwtAuth::new(secret);
    let key = jsonwebtoken::EncodingKey::from_secret(secret);

    let mut payload = serde_json::Map::new();
    payload.insert("sub".to_string(), serde_json::Value::from("1"));
    payload.insert("exp".to_string(), serde_json::Value::from(2_000_000_000i64));
    let no_roles =
        jsonwebtoken::encode(&jsonwebtoken::Header::default(), &payload, &key).expect("token");
    assert_eq!(auth.verify_with_cause_at(&no_roles, 0), Err(TokenFault::Json));
    assert_eq!(auth.verify_token_at(&no_roles, 0), Err(AppError::InvalidToken));

    let full = claims_expiring_at(2_000_000_000);
    payload.insert("iat".to_string(), serde_json::Value::from(full.iat));
    payload.insert("jti".to_string(), serde_json::Value::from(full.jti.as_str()));
    payload.insert("roles".to_string(), serde_json::Value::from(full.roles.clone()));
    payload.insert("sub".to_string(), serde_json::Value::from(full.sub.as_str()));
    payload.insert("extra".to_string(), serde_json::Value::from(true));
    let with_extra =
        jsonwebtoken::encode(&jsonwebtoken::Header::default(), &payload, &key).expect("token");
    assert_eq!(auth.verify_with_cause_at(&with_extra, 0), Ok(full));

    let stronger = jsonwebtoken::Header::new(jsonwebtoken::Algorithm::HS384);
    let other_algorithm = jsonwebtoken::encode(&stronger, &payload, &key).expect("token");
    assert_eq!(auth.verify_with_cause_at(&other_algorithm, 0), Err(TokenFault::InvalidAlgorithm));

    payload.insert("aud".to_string(), serde_json::Value::from("someone"));
    let addressed =
        jsonwebtoken::encode(&jsonwebtoken::Header::default(), &payload, &key).expect("token");
    assert_eq!(auth.verify_with_cause_at(&addressed, 0), Err(TokenFault::InvalidAudience));
}

#[test]
fn issuing_always_succeeds() {
    for secret in [&b""[..], &b"k"[..], &[0u8; 200][..]] {
        let auth = JwtAuth::new(secret);
        for exp in [i64::MIN, -1, 0, 1, i64::MAX] {
            assert!(auth.create_token(&claims_expiring_at(exp.max(i64::MIN + 900))).is_ok());
        }
    }
}

#[test]
fn token_or_fault_maps_a_missing_token() {
    assert_eq!(JwtAuth::token_or_fault(None), Err(AppError::TokenCreation));
    assert_eq!(JwtAuth::token_or_fault(Some("t".to_string())), Ok("t".to_string()));
}

#[test]
fn claims_issued_at_a_given_time() {
    let c = Claims::issued_at(
        "17".to_string(),
        vec!["admin".to_string()],
        1_000,
        "id-1".to_string(),
        900,
    );
    assert_eq!(c.sub, "17");
    assert_eq!(c.iat, 1_000);
    assert_eq!(c.exp, 1_900);
    assert_eq!(c.jti, "id-1");
    assert_eq!(c.roles, vec!["admin".to_string()]);
}

#[test]
fn new_claims_have_the_window_asked_for() {
    let before = unix_seconds() as i64;
    let c = Claims::new("17".to_string(), vec!["user".to_string()], 900);
    let after = unix_seconds() as i64;
    assert!(before <= c.iat && c.iat <= after);
    assert_eq!(c.exp - c.iat, 900);
    assert!(c.iat < c.exp);
    assert_eq!(c.sub, "17");
    assert_eq!(c.roles, vec!["user".to_string()]);
}

#[test]
fn token_identifiers_are_fresh() {
    let a = Claims::new("1".to_string(), vec![], 60);
    let b = Claims::new("1".to_string(), vec![], 60);
    assert_eq!(a.jti.chars().count(), 36);
    assert_eq!(a.jti.matches('-').count(), 4);
    assert_ne!(a.jti, b.jti);
}

#[test]
fn extractor_without_a_token_reports_it_missing() {
    let auth = JwtAuth::new(b"secret");
    assert_eq!(Claims::from_request_parts(None, Some(&auth)), Err(AppError::MissingToken));
    assert_eq!(Claims::from_request_parts(None, None), Err(AppError::MissingToken));
}

#[test]
fn extractor_without_a_service_reports_it_missing() {
    assert_eq!(
        Claims::from_request_parts(Some("a.b.c"), None),
        Err(AppError::MissingAuthService)
    );
    assert_eq!(AppError::MissingAuthService.into_response().status, 500);
}

#[test]
fn extractor_verifies_the_token() {
    let auth = JwtAuth::new(b"secret");
    let claims = claims_expiring_at(unix_seconds() as i64 + 600);
    let token = auth.create_token(&claims).expect("token");
    assert_eq!(Claims::from_request_parts(Some(&token), Some(&auth)), Ok(claims));
    assert_eq!(
        Claims::from_request_parts(Some("a.b.c"), Some(&auth)),
        Err(AppError::InvalidToken)
    );
    let old = auth.create_token(&claims_expiring_at(1_000)).expect("token");
    assert_eq!(Claims::from_request_parts(Some(&old), Some(&auth)), Err(AppError::TokenExpired));
}

#[test]
fn unusual_claims_round_trip() {
    let auth = JwtAuth::new(&[0u8, 255, 10, 13, 34]);
    let cases = vec![
        Claims { sub: String::new(), exp: 0, iat: -1, jti: String::new(), roles: vec![] },
        Claims {
            sub: "quote \" backslash \\ newline \n tab \t".to_string(),
            exp: i64::MAX,
            iat: i64::MIN,
            jti: "ключ-鍵-🔑".to_string(),
            roles: vec![String::new(), "a,b".to_string(), "[\"x\"]".to_string(), "a,b".to_string()],
        },
        Claims {
            sub: "\u{0}\u{7f}\u{80}".to_string(),
            exp: 1,
            iat: 5,
            jti: "null".to_string(),
            roles: vec!["admin".to_string(); 40],
        },
    ];
    for claims in cases {
        let token = auth.create_token(&claims).expect("token");
        assert_eq!(auth.verify_token_at(&token, 0), Ok(claims.clone()));
        assert_eq!(auth.verify_token_at(&token, claims.exp as u64), Ok(claims.clone()));
        if claims.exp < i64::MAX {
            assert_eq!(
                auth.verify_token_at(&token, claims.exp as u64 + 1),
                Err(AppError::TokenExpired)
            );
        }
    }
}

#[test]
fn empty_secret_signs_and_verifies() {
    let auth = JwtAuth::new(b"");
    let claims = claims_expiring_at(100);
    let token = auth.create_token(&claims).expect("token");
    assert_eq!(auth.verify_token_at(&token, 100), Ok(claims));
}
