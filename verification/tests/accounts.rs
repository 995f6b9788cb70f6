use realm_chat::accounts::{
    authenticate, check_login, ensure_username_free, new_account, socket_user, validate_registration, Claims,
};
use realm_chat::protocol::RegisterRequest;
use realm_chat::rows::UserRow;

fn reg(u: &str, p: &str) -> RegisterRequest {
    RegisterRequest { username: u.to_string(), password: p.to_string() }
}

const ALICE: &str = "67e55044-10b1-426f-9247-bb680e5fe0c8";

#[test]
fn registration_trims_the_username() {
    let name = validate_registration(&reg("  alice \t", "secret1")).unwrap();
    assert_eq!(name, "alice");
}

#[test]
fn registration_refuses_a_blank_username() {
    let e = validate_registration(&reg("   ", "secret1")).unwrap_err();
    assert_eq!(e.status, 400);
    assert_eq!(e.message, "Invalid username");
}

#[test]
fn registration_limits_the_username_to_32_bytes() {
    let ok = "a".repeat(32);
    assert_eq!(validate_registration(&reg(&ok, "secret1")).unwrap(), ok);
    let long = "a".repeat(33);
    let e = validate_registration(&reg(&long, "secret1")).unwrap_err();
    assert_eq!((e.status, e.message.as_str()), (400, "Invalid username"));
    let wide = "é".repeat(17);
    let e = validate_registration(&reg(&wide, "secret1")).unwrap_err();
    assert_eq!(e.message, "Invalid username");
}

#[test]
fn registration_needs_six_bytes_of_password() {
    let e = validate_registration(&reg("bob", "12345")).unwrap_err();
    assert_eq!((e.status, e.message.as_str()), (400, "Password too short"));
    assert!(validate_registration(&reg("bob", "123456")).is_ok());
    assert!(validate_registration(&reg("bob", "ééé")).is_ok());
}

#[test]
fn registration_checks_the_username_before_the_password() {
    let e = validate_registration(&reg("", "1")).unwrap_err();
    assert_eq!(e.message, "Invalid username");
}

#[test]
fn a_taken_username_is_a_conflict() {
    let row = UserRow {
        id: ALICE.to_string(),
        username: "alice".to_string(),
        password_hash: String::new(),
        created_at: String::new(),
    };
    let e = ensure_username_free(&Some(row)).unwrap_err();
    assert_eq!((e.status, e.message.as_str()), (409, "Username already taken"));
    assert!(ensure_username_free(&None).is_ok());
}

fn stored(hash: String, id: &str) -> UserRow {
    UserRow { id: id.to_string(), username: "alice".to_string(), password_hash: hash, created_at: String::new() }
}

#[test]
fn the_registered_password_logs_in() {
    let account = new_account("correct horse").unwrap();
    assert!(account.password_hash.starts_with("$argon2"));
    let (id, name) = check_login(Some(stored(account.password_hash.clone(), ALICE)), "correct horse").unwrap();
    assert_eq!(id, uuid::Uuid::parse_str(ALICE).unwrap().as_u128());
    assert_eq!(name, "alice");
}

#[test]
fn two_accounts_get_different_salts_and_ids() {
    let a = new_account("same password").unwrap();
    let b = new_account("same password").unwrap();
    assert_ne!(a.password_hash, b.password_hash);
    assert_ne!(a.id, b.id);
}

#[test]
fn a_wrong_password_is_refused() {
    let account = new_account("correct horse").unwrap();
    let e = check_login(Some(stored(account.password_hash, ALICE)), "battery staple").unwrap_err();
    assert_eq!((e.status, e.message.as_str()), (401, "Invalid credentials"));
}

#[test]
fn an_unknown_user_is_refused() {
    let e = check_login(None, "whatever").unwrap_err();
    assert_eq!((e.status, e.message.as_str()), (401, "Invalid credentials"));
}

#[test]
fn an_unreadable_hash_is_an_internal_error() {
    let e = check_login(Some(stored("not a hash".to_string(), ALICE)), "whatever").unwrap_err();
    assert_eq!(e.status, 500);
    assert!(!e.message.is_empty());
}

#[test]
fn an_unreadable_account_id_is_an_internal_error() {
    let account = new_account("correct horse").unwrap();
    let e = check_login(Some(stored(account.password_hash, "nope")), "correct horse").unwrap_err();
    assert_eq!(e.status, 500);
    assert_eq!(e.message, uuid::Uuid::parse_str("nope").unwrap_err().to_string());
}

#[test]
fn a_request_without_token_is_unauthorized() {
    let e = authenticate(None).unwrap_err();
    assert_eq!((e.status, e.message.as_str()), (401, "Missing token"));
}

#[test]
fn a_token_that_does_not_decode_is_an_internal_error() {
    let e = authenticate(Some(Err("InvalidSignature".to_string()))).unwrap_err();
    assert_eq!((e.status, e.message.as_str()), (500, "InvalidSignature"));
}

#[test]
fn a_token_names_its_user() {
    let c = Claims { sub: ALICE.to_string(), username: "alice".to_string() };
    let (id, name) = authenticate(Some(Ok(c))).unwrap();
    assert_eq!(id, uuid::Uuid::parse_str(ALICE).unwrap().as_u128());
    assert_eq!(name, "alice");
    let bad = Claims { sub: "x".to_string(), username: "alice".to_string() };
    let e = authenticate(Some(Ok(bad))).unwrap_err();
    assert_eq!(e.status, 401);
}

#[test]
fn a_socket_needs_a_readable_token() {
    assert!(socket_user(Err("expired".to_string())).is_none());
    let bad = Claims { sub: "x".to_string(), username: "alice".to_string() };
    assert!(socket_user(Ok(bad)).is_none());
    let c = Claims { sub: ALICE.to_string(), username: "alice".to_string() };
    assert_eq!(socket_user(Ok(c)).unwrap().1, "alice");
}
