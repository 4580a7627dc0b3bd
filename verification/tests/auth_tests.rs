use pasaka::auth::{
    authorize_lookup, check_api_key_header, login_response, prepare_registration,
    register_response, AuthDecision, RepoError,
};
use pasaka::hasher::{hash_password, verify_password};
use pasaka::user::{LoginUser, RegisterUser, User};

fn account_with(password: &str) -> User {
    let hash = hash_password(password).expect("hashing succeeds");
    User {
        id: 7,
        email: "a@x".to_string(),
        password_hash: hash,
        api_key: User::generate_api_key(),
        created_at: 1_700_000_000,
    }
}

#[test]
fn hash_then_verify_accepts_the_password() {
    let hash = hash_password("pw").expect("hashing succeeds");
    assert!(verify_password(&hash, "pw").expect("hash parses"));
}

#[test]
fn verify_rejects_a_wrong_password() {
    let hash = hash_password("pw").expect("hashing succeeds");
    assert!(!verify_password(&hash, "bad").expect("hash parses"));
}

#[test]
fn verify_rejects_a_malformed_hash() {
    assert!(verify_password("not a hash", "pw").is_err());
}

#[test]
fn fresh_hashes_of_one_password_differ() {
    let first = hash_password("pw").expect("hashing succeeds");
    let second = hash_password("pw").expect("hashing succeeds");
    assert_ne!(first, second);
}

#[test]
fn api_key_has_prefix_and_uuid_shape() {
    let key = User::generate_api_key();
    assert_eq!(key.len(), 43);
    assert!(key.starts_with("safina_"));
    let suffix: Vec<char> = key.chars().skip(7).collect();
    assert_eq!(suffix.len(), 36);
    for (i, c) in suffix.iter().enumerate() {
        if i == 8 || i == 13 || i == 18 || i == 23 {
            assert_eq!(*c, '-');
        } else {
            assert!(c.is_ascii_hexdigit() && !c.is_ascii_uppercase());
        }
    }
}

#[test]
fn successive_api_keys_differ() {
    assert_ne!(User::generate_api_key(), User::generate_api_key());
}

#[test]
fn registration_prepares_a_matching_account() {
    let body = RegisterUser { email: "a@x".to_string(), password: "pw".to_string() };
    let prepared = prepare_registration(&body.email, &body.password).expect("hashing succeeds");
    assert_eq!(prepared.email, "a@x");
    assert!(prepared.api_key.starts_with("safina_"));
    assert!(verify_password(&prepared.password_hash, "pw").expect("hash parses"));
}

#[test]
fn registration_rejects_empty_credentials() {
    let r = prepare_registration("", "pw").expect_err("empty email is rejected");
    assert!(!r.success);
    assert_eq!(r.message, "Email and password must not be empty");
    assert!(r.user.is_none());
    let r = prepare_registration("a@x", "").expect_err("empty password is rejected");
    assert_eq!(r.message, "Email and password must not be empty");
}

#[test]
fn register_response_projects_the_account() {
    let account = account_with("pw");
    let r = register_response(Ok(account));
    assert!(r.success);
    assert_eq!(r.message, "Registration successful");
    let user = r.user.expect("a successful registration carries the user");
    assert_eq!(user.id, 7);
    assert_eq!(user.email, "a@x");
    assert!(user.api_key.starts_with("safina_"));
}

#[test]
fn register_response_hides_which_constraint_tripped() {
    let r = register_response(Err(RepoError::DuplicateEmail));
    assert!(!r.success);
    assert_eq!(r.message, "Registration failed. Email might already be in use.");
    assert!(r.user.is_none());
    let r = register_response(Err(RepoError::Storage));
    assert_eq!(r.message, "Registration failed. Email might already be in use.");
}

#[test]
fn registered_account_logs_in() {
    let prepared = prepare_registration("a@x", "pw").expect("hashing succeeds");
    let account = User {
        id: 1,
        email: prepared.email.clone(),
        password_hash: prepared.password_hash.clone(),
        api_key: prepared.api_key.clone(),
        created_at: 1_700_000_000,
    };
    let r = login_response(Ok(Some(account)), "pw");
    assert!(r.success);
    assert_eq!(r.message, "Login successful");
    let user = r.user.expect("a successful login carries the user");
    assert_eq!(user.email, "a@x");
    assert_eq!(user.api_key, prepared.api_key);
}

#[test]
fn login_rejects_a_wrong_password() {
    let account = account_with("pw");
    let r = login_response(Ok(Some(account)), "bad");
    assert!(!r.success);
    assert_eq!(r.message, "Invalid email or password");
    assert!(r.user.is_none());
}

#[test]
fn login_unknown_email_gets_the_same_message() {
    let body = LoginUser { email: "none@x".to_string(), password: "pw".to_string() };
    let r = login_response(Ok(None), &body.password);
    assert!(!r.success);
    assert_eq!(r.message, "Invalid email or password");
    assert!(r.user.is_none());
}

#[test]
fn login_storage_failure_is_opaque() {
    let r = login_response(Err(RepoError::Storage), "pw");
    assert!(!r.success);
    assert_eq!(r.message, "Login failed");
    assert!(r.user.is_none());
}

#[test]
fn missing_api_key_header_is_rejected() {
    let e = check_api_key_header(None).expect_err("no header, no key");
    assert_eq!(e.status, 401);
    assert!(!e.body.success);
    assert_eq!(e.body.error, "API key is required");
}

#[test]
fn present_api_key_header_passes_through() {
    let key = check_api_key_header(Some("safina_abc".to_string())).expect("header present");
    assert_eq!(key, "safina_abc");
}

#[test]
fn known_key_forwards_the_request() {
    assert!(matches!(authorize_lookup(Ok(Some(7))), AuthDecision::Forward));
}

#[test]
fn unknown_key_is_unauthorized() {
    match authorize_lookup(Ok(None)) {
        AuthDecision::Forward => panic!("an unknown key must not forward"),
        AuthDecision::Reject(e) => {
            assert_eq!(e.status, 401);
            assert!(!e.body.success);
            assert_eq!(e.body.error, "Invalid API key");
        }
    }
}

#[test]
fn storage_failure_is_an_internal_error() {
    match authorize_lookup(Err(RepoError::Storage)) {
        AuthDecision::Forward => panic!("a storage failure must not forward"),
        AuthDecision::Reject(e) => {
            assert_eq!(e.status, 500);
            assert!(!e.body.success);
            assert_eq!(e.body.error, "Internal server error");
        }
    }
}
