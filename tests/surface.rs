use accounts::api::{bearer_token, error_code_or_default, AuthError, DEFAULT_ERROR_CODE};
use accounts::firebase::{firebase_claims, firebase_claims_at, FIREBASE_AUDIENCE};
use accounts::templates::email_body_activation;

#[test]
fn error_codes() {
    assert_eq!(AuthError::DuplicateIdentity.code(), "AU0001");
    assert_eq!(AuthError::InvalidCredentials.code(), "AU0011");
    assert_eq!(AuthError::WrongCredentials.code(), "AU0012");
    assert_eq!(AuthError::NotActivated.code(), "AU0012");
    assert_eq!(AuthError::InvalidToken.code(), "");
    assert_eq!(AuthError::StorageUnavailable.code(), "");
}

#[test]
fn error_statuses() {
    assert_eq!(AuthError::DuplicateIdentity.status(), 400);
    assert_eq!(AuthError::InvalidToken.status(), 400);
    assert_eq!(AuthError::TokenExpired.status(), 400);
    assert_eq!(AuthError::InvalidCredentials.status(), 401);
    assert_eq!(AuthError::WrongCredentials.status(), 401);
    assert_eq!(AuthError::NotActivated.status(), 401);
    assert_eq!(AuthError::Unauthenticated.status(), 401);
    assert_eq!(AuthError::StorageUnavailable.status(), 500);
}

#[test]
fn empty_code_falls_back_to_default() {
    assert_eq!(error_code_or_default(""), "AU0000");
    assert_eq!(DEFAULT_ERROR_CODE, "AU0000");
    assert_eq!(error_code_or_default("AU0012"), "AU0012");
}

#[test]
fn bearer_token_is_last_word() {
    assert_eq!(bearer_token("Bearer abc").unwrap(), "abc");
    assert_eq!(bearer_token("abc").unwrap(), "abc");
    assert_eq!(bearer_token("  Bearer\tx y  ").unwrap(), "y");
    assert_eq!(bearer_token("Bearer\u{3000}tok").unwrap(), "tok");
}

#[test]
fn bearer_token_without_word_fails() {
    assert!(matches!(bearer_token(""), Err(AuthError::Unauthenticated)));
    assert!(matches!(bearer_token(" \t\n"), Err(AuthError::Unauthenticated)));
}

#[test]
fn activation_email_carries_link() {
    let body = email_body_activation("tok123");
    assert!(body.contains("https://accounts.lynlab.co.kr/activate/tok123\n"));
    assert!(body.starts_with("\nLYnLab 계정 등록을 위한 인증 이메일입니다."));
    assert!(body.ends_with("무시하셔도 됩니다.\n    "));
}

#[test]
fn firebase_claims_at_instant() {
    let c = firebase_claims_at("svc@example.iam", "id-1", 1000);
    assert_eq!(c.alg, "RS256");
    assert_eq!(c.iss, "svc@example.iam");
    assert_eq!(c.sub, "svc@example.iam");
    assert_eq!(c.aud, FIREBASE_AUDIENCE);
    assert_eq!(c.iat, 1000);
    assert_eq!(c.exp, 4600);
    assert_eq!(c.uid, "id-1");
}

#[test]
fn firebase_claims_now() {
    let c = firebase_claims("svc", "id-2").unwrap();
    assert_eq!(c.exp, c.iat + 3600);
    assert!(c.iat > 1_600_000_000);
}
