//! Accounts: registration rules, password hashes, login and the identity
//! that a session token carries.

use vstd::prelude::*;
use argon2::{PasswordHasher, PasswordVerifier};
use crate::error::{AppError, STATUS_BAD_REQUEST, STATUS_CONFLICT, STATUS_INTERNAL, STATUS_UNAUTHORIZED};
use crate::ids::{fresh_id, parse_id, uuid_parse};
use crate::protocol::RegisterRequest;
use crate::rows::UserRow;
use crate::text::{trim, trimmed, utf8_len};

verus! {

/// The longest username, in bytes of UTF-8.
pub const MAX_USERNAME_BYTES: usize = 32;

/// The shortest password, in bytes of UTF-8.
pub const MIN_PASSWORD_BYTES: usize = 6;

/// The longest password, in bytes, that argon2 hashes.
pub const MAX_HASHED_BYTES: u64 = 0xFFFF_FFFF;

/// What a session token says: the user's id (as text) and name.
#[derive(Clone, Debug)]
pub struct Claims {
    pub sub: String,
    pub username: String,
}

/// What `argon2::PasswordHash::new` makes of `text`: success, or the text of
/// the error.
pub uninterp spec fn phc_parse(text: Seq<char>) -> Result<(), Seq<char>>;

/// Whether `Argon2::default().verify_password` accepts `password` for the
/// stored hash `hash`.
pub uninterp spec fn argon2_verifies(password: Seq<char>, hash: Seq<char>) -> bool;

/// Calls `argon2::PasswordHash::new`, which reads a hash in the PHC string
/// format; on failure, the error's `Display` text. The contract claims that
/// the outcome is a function of `text` alone.
#[verifier::external_body]
fn read_password_hash(text: &str) -> (r: Result<(), String>)
    ensures
        match r {
            Ok(_) => phc_parse(text@) == Ok::<(), Seq<char>>(()),
            Err(m) => phc_parse(text@) == Err::<(), Seq<char>>(m@),
        },
{
    match argon2::PasswordHash::new(text) {
        Ok(_) => Ok(()),
        Err(e) => Err(e.to_string()),
    }
}

/// Calls `argon2::PasswordVerifier::verify_password` of `Argon2::default()`
/// on the UTF-8 bytes of `password` and the hash read from `hash`. The
/// contract claims that the answer is a function of the two texts.
#[verifier::external_body]
fn verify_password(password: &str, hash: &str) -> (ok: bool)
    requires
        phc_parse(hash@) is Ok,
    ensures
        ok == argon2_verifies(password@, hash@),
{
    match argon2::PasswordHash::new(hash) {
        Ok(h) => argon2::Argon2::default().verify_password(password.as_bytes(), &h).is_ok(),
        Err(_) => false,
    }
}

/// Calls `argon2::PasswordHasher::hash_password` of `Argon2::default()` on
/// the UTF-8 bytes of `password` with a salt from `SaltString::generate` over
/// the system's random source, and gives the PHC text of the hash, or the
/// error's text. The salt is random, so the hash is not a function of the
/// password; the contract claims only what the hash is for: it reads as a
/// PHC string and verifies the password it was made from. Argon2 refuses
/// only a password longer than `MAX_HASHED_BYTES` bytes (its `PwdTooLong`);
/// the generated salt and the default parameters always pass its checks, so
/// a shorter password is always hashed.
#[verifier::external_body]
fn hash_password(password: &str) -> (r: Result<String, String>)
    ensures
        r matches Ok(h) ==> phc_parse(h@) is Ok && argon2_verifies(password@, h@),
        utf8_len(password@) <= MAX_HASHED_BYTES ==> r is Ok,
{
    let salt = argon2::password_hash::SaltString::generate(&mut argon2::password_hash::rand_core::OsRng);
    match argon2::Argon2::default().hash_password(password.as_bytes(), &salt) {
        Ok(h) => Ok(h.to_string()),
        Err(e) => Err(e.to_string()),
    }
}

/// Whether a registration with this username and password is acceptable:
/// the trimmed username is 1 to 32 bytes long and the password at least 6.
pub open spec fn registration_ok(username: Seq<char>, password: Seq<char>) -> bool {
    &&& trimmed(username).len() > 0
    &&& utf8_len(trimmed(username)) <= MAX_USERNAME_BYTES
    &&& utf8_len(password) >= MIN_PASSWORD_BYTES
}

/// Checks a registration: the trimmed username, or 400 "Invalid username"
/// (blank, or over 32 bytes), or else 400 "Password too short" (under 6
/// bytes).
pub fn validate_registration(req: &RegisterRequest) -> (r: Result<String, AppError>)
    ensures
        r is Ok <==> registration_ok(req.username@, req.password@),
        r matches Ok(name) ==> name@ == trimmed(req.username@),
        r matches Err(e) ==> e.status == STATUS_BAD_REQUEST && if trimmed(req.username@).len() == 0
            || utf8_len(trimmed(req.username@)) > MAX_USERNAME_BYTES {
            e.message@ == "Invalid username"@
        } else {
            e.message@ == "Password too short"@
        },
{
    let t = trim(req.username.as_str());
    if t.is_empty() || t.as_bytes().len() > MAX_USERNAME_BYTES {
        return Err(AppError::with_text(STATUS_BAD_REQUEST, "Invalid username"));
    }
    if req.password.as_str().as_bytes().len() < MIN_PASSWORD_BYTES {
        return Err(AppError::with_text(STATUS_BAD_REQUEST, "Password too short"));
    }
    Ok(t.to_owned())
}

/// A username already taken refuses the registration with 409.
pub fn ensure_username_free(existing: &Option<UserRow>) -> (r: Result<(), AppError>)
    ensures
        r is Ok <==> existing is None,
        r matches Err(e) ==> e.status == STATUS_CONFLICT && e.message@ == "Username already taken"@,
{
    match existing {
        Some(_) => Err(AppError::with_text(STATUS_CONFLICT, "Username already taken")),
        None => Ok(()),
    }
}

/// A new account's id and password hash.
#[derive(Clone, Debug)]
pub struct NewAccount {
    pub id: u128,
    pub password_hash: String,
}

/// A fresh id and a salted hash of `password`; a failure to hash is an
/// internal error, which comes only for a password over `MAX_HASHED_BYTES`
/// bytes. The hash verifies the password.
pub fn new_account(password: &str) -> (r: Result<NewAccount, AppError>)
    ensures
        utf8_len(password@) <= MAX_HASHED_BYTES ==> r is Ok,
        r matches Ok(a) ==> phc_parse(a.password_hash@) is Ok && argon2_verifies(
            password@,
            a.password_hash@,
        ),
        r matches Err(e) ==> e.status == STATUS_INTERNAL,
{
    let hash = match hash_password(password) {
        Ok(h) => h,
        Err(m) => return Err(AppError::internal(m)),
    };
    let id = fresh_id();
    Ok(NewAccount { id, password_hash: hash })
}

/// The outcome of a login with `password` for the account found, if any:
/// the account's id and name; 401 "Invalid credentials" when there is no
/// such account or the password does not match; 500 when the stored hash or
/// id cannot be read.
pub open spec fn login_outcome(row: Option<UserRow>, password: Seq<char>) -> Result<(u128, Seq<char>), (u16, Seq<char>)> {
    match row {
        None => Err((STATUS_UNAUTHORIZED, "Invalid credentials"@)),
        Some(u) => match phc_parse(u.password_hash@) {
            Err(m) => Err((STATUS_INTERNAL, m)),
            Ok(_) => if !argon2_verifies(password, u.password_hash@) {
                Err((STATUS_UNAUTHORIZED, "Invalid credentials"@))
            } else {
                match uuid_parse(u.id@) {
                    Err(m) => Err((STATUS_INTERNAL, m)),
                    Ok(id) => Ok((id, u.username@)),
                }
            },
        },
    }
}

/// Decides a login once the account has been looked up by name.
pub fn check_login(row: Option<UserRow>, password: &str) -> (r: Result<(u128, String), AppError>)
    ensures
        match (r, login_outcome(row, password@)) {
            (Ok((id, name)), Ok((sid, sname))) => id == sid && name@ == sname,
            (Err(e), Err((status, m))) => e.status == status && e.message@ == m,
            _ => false,
        },
{
    let u = match row {
        None => return Err(AppError::with_text(STATUS_UNAUTHORIZED, "Invalid credentials")),
        Some(u) => u,
    };
    match read_password_hash(u.password_hash.as_str()) {
        Ok(_) => {},
        Err(m) => return Err(AppError::internal(m)),
    }
    if !verify_password(password, u.password_hash.as_str()) {
        return Err(AppError::with_text(STATUS_UNAUTHORIZED, "Invalid credentials"));
    }
    match parse_id(u.id.as_str()) {
        Ok(id) => Ok((id, u.username)),
        Err(m) => Err(AppError::internal(m)),
    }
}

/// An account stored with the hash that registration made for a password
/// lets that password log in.
pub proof fn lemma_registered_password_logs_in(
    password: Seq<char>,
    account: NewAccount,
    row: UserRow,
    id: u128,
)
    requires
        phc_parse(account.password_hash@) is Ok,
        argon2_verifies(password, account.password_hash@),
        row.password_hash@ == account.password_hash@,
        uuid_parse(row.id@) == Ok::<u128, Seq<char>>(id),
    ensures
        login_outcome(Some(row), password) == Ok::<(u128, Seq<char>), (u16, Seq<char>)>(
            (id, row.username@),
        ),
{
}

/// A login refused for an unknown name and one refused for a wrong password
/// get the same answer, so the answer does not tell which names exist.
pub proof fn lemma_login_refusals_look_alike(password: Seq<char>, row: UserRow)
    requires
        phc_parse(row.password_hash@) is Ok,
        !argon2_verifies(password, row.password_hash@),
    ensures
        login_outcome(Some(row), password) == login_outcome(None, password),
{
}

/// The identity of a request from its bearer token: `None` when the request
/// carries no token (401 "Missing token"); a token that does not decode is
/// an internal error with the decoder's text; a subject that is not a UUID
/// is 401 with the parser's text.
pub fn authenticate(decoded: Option<Result<Claims, String>>) -> (r: Result<(u128, String), AppError>)
    ensures
        match decoded {
            None => r matches Err(e) && e.status == STATUS_UNAUTHORIZED && e.message@
                == "Missing token"@,
            Some(Err(m)) => r matches Err(e) && e.status == STATUS_INTERNAL && e.message == m,
            Some(Ok(c)) => match uuid_parse(c.sub@) {
                Ok(id) => r matches Ok((uid, name)) && uid == id && name == c.username,
                Err(m) => r matches Err(e) && e.status == STATUS_UNAUTHORIZED && e.message@ == m,
            },
        },
{
    let c = match decoded {
        None => return Err(AppError::with_text(STATUS_UNAUTHORIZED, "Missing token")),
        Some(Err(m)) => return Err(AppError::internal(m)),
        Some(Ok(c)) => c,
    };
    match parse_id(c.sub.as_str()) {
        Ok(id) => Ok((id, c.username)),
        Err(m) => Err(AppError::new(STATUS_UNAUTHORIZED, m)),
    }
}

/// The user of a real-time connection from its token: `None` (refused with
/// 401 "Invalid token") when the token does not decode or its subject is
/// not a UUID.
pub fn socket_user(decoded: Result<Claims, String>) -> (r: Option<(u128, String)>)
    ensures
        match decoded {
            Err(_) => r is None,
            Ok(c) => match uuid_parse(c.sub@) {
                Ok(id) => r == Some((id, c.username)),
                Err(_) => r is None,
            },
        },
{
    match decoded {
        Err(_) => None,
        Ok(c) => match parse_id(c.sub.as_str()) {
            Ok(id) => Some((id, c.username)),
            Err(_) => None,
        },
    }
}

} // verus!
