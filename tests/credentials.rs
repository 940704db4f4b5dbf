use accounts::hasher::{digests_equal, hash_password, DIGEST_LEN};
use accounts::user::{User, SALT_LEN};

fn record(password: &str) -> User {
    let (hash, salt) = User::make_password_hash(password);
    User {
        id: "id-1".to_string(),
        username: "alice".to_string(),
        password_hash: hash,
        password_salt: salt,
        email: "alice@example.com".to_string(),
        access_token: None,
        access_token_valid_until: None,
        is_activated: false,
        activation_token: None,
        activation_token_valid_until: None,
        activation_redirection_url: None,
    }
}

#[test]
fn hash_is_deterministic_for_one_salt() {
    let a = hash_password("secret123", "saltsaltsalt");
    let b = hash_password("secret123", "saltsaltsalt");
    assert_eq!(a, b);
    assert_eq!(a.len(), DIGEST_LEN);
}

#[test]
fn different_salts_give_different_digests() {
    let a = hash_password("secret123", "saltsaltsalt-one");
    let b = hash_password("secret123", "saltsaltsalt-two");
    assert_ne!(a, b);
}

#[test]
fn digest_is_not_the_password() {
    let d = hash_password("secret123", "saltsaltsalt");
    assert_ne!(d, b"secret123".to_vec());
}

#[test]
fn verify_accepts_own_password() {
    let u = record("secret123");
    assert!(u.verify_password("secret123"));
}

#[test]
fn verify_rejects_other_password() {
    let u = record("secret123");
    assert!(!u.verify_password("secret124"));
    assert!(!u.verify_password(""));
}

#[test]
fn empty_password_is_hashed_like_any_other() {
    let u = record("");
    assert!(u.verify_password(""));
    assert!(!u.verify_password("x"));
}

#[test]
fn salt_has_fixed_length_and_url_safe_characters() {
    let (hash, salt) = User::make_password_hash("secret123");
    assert_eq!(hash.len(), DIGEST_LEN);
    assert_eq!(salt.chars().count(), SALT_LEN);
    assert!(salt.chars().all(|c| c.is_ascii_alphanumeric() || c == '_' || c == '~'));
}

#[test]
fn two_salts_differ() {
    let (_, s1) = User::make_password_hash("secret123");
    let (_, s2) = User::make_password_hash("secret123");
    assert_ne!(s1, s2);
}

#[test]
fn digest_comparison() {
    assert!(digests_equal(&vec![1, 2, 3], &vec![1, 2, 3]));
    assert!(!digests_equal(&vec![1, 2, 3], &vec![1, 2, 4]));
    assert!(!digests_equal(&vec![1, 2, 3], &vec![1, 2]));
    assert!(digests_equal(&vec![], &vec![]));
}
