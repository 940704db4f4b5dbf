use accounts::accounts::{
    wants_firebase, AccountStore, ACCESS_TOKEN_LEN, ACTIVATION_TOKEN_LEN, ACTIVATION_WINDOW,
};
use accounts::api::AuthError;
use accounts::templates::{email_body_activation, ACTIVATION_SUBJECT};

const NOW: i64 = 1_600_000_000;

fn register_alice(store: &mut AccountStore) {
    let r = store.register_with(
        "alice",
        "secret123",
        "alice@example.com",
        "https://app/done",
        "id-alice".to_string(),
        "saltsaltsaltsalt".to_string(),
        "activationtoken1".to_string(),
        NOW,
    );
    assert!(r.is_ok());
}

fn activation_token(store: &AccountStore, i: usize) -> String {
    store.users[i].activation_token.clone().unwrap()
}

#[test]
fn register_stores_pending_record() {
    let mut store = AccountStore::new();
    let n = store
        .register("alice", "secret123", "alice@example.com", "https://app/done")
        .unwrap();
    assert_eq!(store.users.len(), 1);
    let u = &store.users[0];
    assert_eq!(u.username, "alice");
    assert_eq!(u.email, "alice@example.com");
    assert!(!u.is_activated);
    assert!(u.access_token.is_none());
    let token = activation_token(&store, 0);
    assert_eq!(token.chars().count(), ACTIVATION_TOKEN_LEN);
    assert_eq!(u.activation_redirection_url.as_deref(), Some("https://app/done"));
    assert_eq!(n.address, "alice@example.com");
    assert_eq!(n.subject, ACTIVATION_SUBJECT);
    assert_eq!(n.body, email_body_activation(&token));
    assert!(u.verify_password("secret123"));
    assert_ne!(u.password_hash, b"secret123".to_vec());
}

#[test]
fn register_sets_two_hour_window() {
    let mut store = AccountStore::new();
    register_alice(&mut store);
    assert_eq!(store.users[0].activation_token_valid_until, Some(NOW + 7200));
    assert_eq!(ACTIVATION_WINDOW, 7200);
}

#[test]
fn duplicate_username_is_refused() {
    let mut store = AccountStore::new();
    store
        .register("alice", "secret123", "alice@example.com", "https://app/done")
        .unwrap();
    let id = store.users[0].id.clone();
    let hash = store.users[0].password_hash.clone();
    let salt = store.users[0].password_salt.clone();
    let token = activation_token(&store, 0);
    let r = store.register("alice", "other-pass", "mallory@example.com", "https://evil/");
    assert!(matches!(r, Err(AuthError::DuplicateIdentity)));
    assert_eq!(store.users.len(), 1);
    let u = &store.users[0];
    assert_eq!(u.id, id);
    assert_eq!(u.password_hash, hash);
    assert_eq!(u.password_salt, salt);
    assert_eq!(u.email, "alice@example.com");
    assert_eq!(activation_token(&store, 0), token);
    assert_eq!(u.activation_redirection_url.as_deref(), Some("https://app/done"));
}

#[test]
fn duplicate_identifier_is_refused() {
    let mut store = AccountStore::new();
    register_alice(&mut store);
    let r = store.register_with(
        "bob",
        "pw",
        "bob@example.com",
        "https://app/bob",
        "id-alice".to_string(),
        "saltsaltsaltsalt".to_string(),
        "activationtoken2".to_string(),
        NOW,
    );
    assert!(matches!(r, Err(AuthError::DuplicateIdentity)));
    assert_eq!(store.users.len(), 1);
}

#[test]
fn two_registrations_draw_different_tokens_and_ids() {
    let mut store = AccountStore::new();
    store.register("alice", "a", "a@example.com", "https://app/a").unwrap();
    store.register("bob", "b", "b@example.com", "https://app/b").unwrap();
    assert_ne!(activation_token(&store, 0), activation_token(&store, 1));
    assert_ne!(store.users[0].id, store.users[1].id);
    assert_ne!(store.users[0].password_salt, store.users[1].password_salt);
}

#[test]
fn activation_with_unknown_token_fails() {
    let mut store = AccountStore::new();
    register_alice(&mut store);
    let r = store.activate_at("no-such-token", NOW);
    assert!(matches!(r, Err(AuthError::InvalidToken)));
    assert!(!store.users[0].is_activated);
}

#[test]
fn activation_after_expiry_fails() {
    let mut store = AccountStore::new();
    register_alice(&mut store);
    let r = store.activate_at("activationtoken1", NOW + 7200);
    assert!(matches!(r, Err(AuthError::TokenExpired)));
    assert!(!store.users[0].is_activated);
    let r = store.activate_at("activationtoken1", NOW + 100_000);
    assert!(matches!(r, Err(AuthError::TokenExpired)));
    assert!(!store.users[0].is_activated);
}

#[test]
fn activation_before_expiry_succeeds() {
    let mut store = AccountStore::new();
    register_alice(&mut store);
    let r = store.activate_at("activationtoken1", NOW + 7199);
    assert_eq!(r.unwrap(), "https://app/done");
    assert!(store.users[0].is_activated);
}

#[test]
fn activation_now_succeeds() {
    let mut store = AccountStore::new();
    store
        .register("alice", "secret123", "alice@example.com", "https://app/done")
        .unwrap();
    let token = activation_token(&store, 0);
    assert_eq!(store.activate(&token).unwrap(), "https://app/done");
    assert!(store.users[0].is_activated);
}

#[test]
fn login_unknown_user_fails() {
    let mut store = AccountStore::new();
    register_alice(&mut store);
    let r = store.login("bob", "secret123", &None);
    assert!(matches!(r, Err(AuthError::InvalidCredentials)));
}

#[test]
fn login_before_activation_fails() {
    let mut store = AccountStore::new();
    register_alice(&mut store);
    let r = store.login("alice", "secret123", &None);
    assert!(matches!(r, Err(AuthError::NotActivated)));
    assert!(store.users[0].access_token.is_none());
}

#[test]
fn login_with_wrong_password_fails() {
    let mut store = AccountStore::new();
    register_alice(&mut store);
    store.activate_at("activationtoken1", NOW).unwrap();
    let r = store.login("alice", "secret124", &None);
    assert!(matches!(r, Err(AuthError::WrongCredentials)));
    assert!(store.users[0].access_token.is_none());
}

#[test]
fn consecutive_logins_return_same_token() {
    let mut store = AccountStore::new();
    register_alice(&mut store);
    store.activate_at("activationtoken1", NOW).unwrap();
    let first = store.login("alice", "secret123", &None).unwrap();
    let second = store.login("alice", "secret123", &None).unwrap();
    assert_eq!(first.access_token, second.access_token);
    assert_eq!(first.access_token.chars().count(), ACCESS_TOKEN_LEN);
    assert_eq!(store.users[0].access_token.as_deref(), Some(first.access_token.as_str()));
}

#[test]
fn login_with_given_token_issues_it() {
    let mut store = AccountStore::new();
    register_alice(&mut store);
    store.activate_at("activationtoken1", NOW).unwrap();
    let g = store.login_with("alice", "secret123", &None, "fresh-token".to_string()).unwrap();
    assert_eq!(g.access_token, "fresh-token");
    let g = store.login_with("alice", "secret123", &None, "other-token".to_string()).unwrap();
    assert_eq!(g.access_token, "fresh-token");
    assert!(g.firebase_uid.is_none());
}

#[test]
fn login_asking_for_firebase_names_the_account() {
    let mut store = AccountStore::new();
    register_alice(&mut store);
    store.activate_at("activationtoken1", NOW).unwrap();
    let services = Some(vec!["other".to_string(), "firebase".to_string()]);
    let g = store.login("alice", "secret123", &services).unwrap();
    assert_eq!(g.firebase_uid.as_deref(), Some("id-alice"));
}

#[test]
fn firebase_request_detection() {
    assert!(!wants_firebase(&None));
    assert!(!wants_firebase(&Some(vec![])));
    assert!(!wants_firebase(&Some(vec!["Firebase".to_string()])));
    assert!(wants_firebase(&Some(vec!["firebase".to_string()])));
}

#[test]
fn me_with_token_of_unactivated_account_fails() {
    let mut store = AccountStore::new();
    register_alice(&mut store);
    store.users[0].access_token = Some("tok".to_string());
    let r = store.me("tok");
    assert!(matches!(r, Err(AuthError::Unauthenticated)));
}

#[test]
fn me_with_unknown_token_fails() {
    let mut store = AccountStore::new();
    register_alice(&mut store);
    assert!(matches!(store.me("nothing"), Err(AuthError::Unauthenticated)));
}

#[test]
fn end_to_end_register_activate_login_me() {
    let mut store = AccountStore::new();
    store
        .register("alice", "secret123", "alice@example.com", "https://app/done")
        .unwrap();
    assert_eq!(store.users.len(), 1);
    assert!(!store.users[0].is_activated);
    let token = activation_token(&store, 0);
    let until = store.users[0].activation_token_valid_until.unwrap();
    let now = chrono::Utc::now().timestamp();
    assert!(until - now <= 7200 && until - now >= 7190);
    let url = store.activate(&token).unwrap();
    assert!(store.users[0].is_activated);
    assert_eq!(url, "https://app/done");
    let grant = store.login("alice", "secret123", &None).unwrap();
    assert_eq!(grant.access_token.chars().count(), 64);
    let who = store.me(&grant.access_token).unwrap();
    assert_eq!(who.id, store.users[0].id);
    assert_eq!(who.username, "alice");
    assert_eq!(who.email, "alice@example.com");
}

#[test]
fn registration_draws_hyphenated_identifier() {
    let mut store = AccountStore::new();
    store.register("alice", "a", "a@example.com", "https://app/a").unwrap();
    let id = &store.users[0].id;
    assert_eq!(id.chars().count(), 36);
    assert_eq!(id.matches('-').count(), 4);
}

#[test]
fn held_activation_token_is_refused() {
    let mut store = AccountStore::new();
    register_alice(&mut store);
    let r = store.register_with(
        "bob",
        "pw",
        "bob@example.com",
        "https://app/bob",
        "id-bob".to_string(),
        "saltsaltsaltsalt".to_string(),
        "activationtoken1".to_string(),
        NOW,
    );
    assert!(matches!(r, Err(AuthError::DuplicateIdentity)));
    assert_eq!(store.users.len(), 1);
}

#[test]
fn held_access_token_is_refused() {
    let mut store = AccountStore::new();
    register_alice(&mut store);
    store
        .register_with(
            "bob",
            "pw",
            "bob@example.com",
            "https://app/bob",
            "id-bob".to_string(),
            "saltsaltsaltsalt".to_string(),
            "activationtoken2".to_string(),
            NOW,
        )
        .unwrap();
    store.activate_at("activationtoken1", NOW).unwrap();
    store.activate_at("activationtoken2", NOW).unwrap();
    store.login_with("alice", "secret123", &None, "shared".to_string()).unwrap();
    let r = store.login_with("bob", "pw", &None, "shared".to_string());
    assert!(matches!(r, Err(AuthError::StorageUnavailable)));
    assert!(store.users[1].access_token.is_none());
    let g = store.login_with("bob", "pw", &None, "other".to_string()).unwrap();
    assert_eq!(g.access_token, "other");
}
