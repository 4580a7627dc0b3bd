//! Credential decisions and the per-request authorization guard.
//!
//! Registration and login each wrap one repository call; the repository
//! itself is persistent state outside the library, so these functions
//! take its answer as an argument and decide the response. The guard does
//! the same for the api-key lookup made on every protected request.

use vstd::prelude::*;
use vstd::string::StringExecFns;

use crate::bible::{ApiError, ErrorResponse};
use crate::hasher::{hash_matches, hash_password, phc_parses, verify_password};
use crate::user::{api_key_wf, AuthResponse, User, UserResponse};

verus! {

/// Failure inside the account repository.
#[derive(Debug)]
pub enum RepoError {
    /// The email or api key collided with a stored row.
    DuplicateEmail,
    /// Any other storage failure.
    Storage,
}

/// A new account row, ready for insertion.
#[derive(Debug)]
pub struct NewAccount {
    pub email: String,
    pub password_hash: String,
    pub api_key: String,
}

/// The stored hash accepts this password: the hash string parses, and
/// verification of the password against it succeeds.
pub open spec fn credentials_accepted(password_hash: Seq<char>, password: Seq<char>) -> bool {
    phc_parses(password_hash) && hash_matches(password_hash, password)
}

/// Whether `user` is the public projection of `account`.
pub open spec fn projects_account(user: Option<UserResponse>, account: User) -> bool {
    match user {
        Some(u) => u.id == account.id && u.email@ == account.email@ && u.api_key@
            == account.api_key@,
        None => false,
    }
}

/// Validates the request, computes the password hash and draws a fresh
/// api key for a registration. An empty email or password is rejected
/// before any hashing; on hashing failure it yields the failed response
/// directly. The stored hash of a prepared account accepts the password
/// it was prepared with.
pub fn prepare_registration(email: &str, password: &str) -> (r: Result<NewAccount, AuthResponse>)
    ensures
        r is Ok ==> r->Ok_0.email@ == email@,
        r is Ok ==> credentials_accepted(r->Ok_0.password_hash@, password@),
        r is Ok ==> api_key_wf(r->Ok_0.api_key@),
        r is Err ==> !r->Err_0.success && r->Err_0.user is None,
        email@.len() == 0 || password@.len() == 0 ==> r is Err && r->Err_0.message@
            == "Email and password must not be empty"@,
        email@.len() > 0 && password@.len() > 0 && r is Err ==> r->Err_0.message@
            == "Failed to hash password"@,
{
    if email.is_empty() || password.is_empty() {
        return Err(
            AuthResponse {
                success: false,
                message: String::from_str("Email and password must not be empty"),
                user: None,
            },
        );
    }
    match hash_password(password) {
        Err(_) => Err(
            AuthResponse {
                success: false,
                message: String::from_str("Failed to hash password"),
                user: None,
            },
        ),
        Ok(password_hash) => {
            let api_key = User::generate_api_key();
            Ok(NewAccount { email: email.to_owned(), password_hash, api_key })
        },
    }
}

/// The response to a registration, given the repository's answer to the
/// insert. Every failure collapses into one generic message, so the
/// response does not reveal which constraint tripped.
pub fn register_response(result: Result<User, RepoError>) -> (r: AuthResponse)
    ensures
        (match result {
            Ok(account) => r.success && r.message@ == "Registration successful"@
                && projects_account(r.user, account),
            Err(_) => !r.success && r.message@
                == "Registration failed. Email might already be in use."@ && r.user is None,
        }),
{
    match result {
        Ok(account) => AuthResponse {
            success: true,
            message: String::from_str("Registration successful"),
            user: Some(account.to_response()),
        },
        Err(_) => AuthResponse {
            success: false,
            message: String::from_str("Registration failed. Email might already be in use."),
            user: None,
        },
    }
}

/// When a login is owed success: the account was found and its stored
/// hash accepts the offered password.
pub open spec fn login_accepts(found: Result<Option<User>, RepoError>, password: Seq<char>)
    -> bool {
    match found {
        Ok(Some(account)) => credentials_accepted(account.password_hash@, password),
        Ok(None) => false,
        Err(_) => false,
    }
}

/// The response to a login, given the account the repository found for
/// the email, if any, and the offered password. An unknown email and a
/// wrong password yield one and the same generic message, so responses
/// do not let accounts be enumerated.
pub fn login_response(found: Result<Option<User>, RepoError>, password: &str) -> (r: AuthResponse)
    ensures
        r.success == login_accepts(found, password@),
        (match found {
            Ok(Some(account)) => {
                if credentials_accepted(account.password_hash@, password@) {
                    r.message@ == "Login successful"@ && projects_account(r.user, account)
                } else {
                    r.message@ == "Invalid email or password"@ && r.user is None
                }
            },
            Ok(None) => r.message@ == "Invalid email or password"@ && r.user is None,
            Err(_) => r.message@ == "Login failed"@ && r.user is None,
        }),
{
    match found {
        Ok(Some(account)) => match verify_password(account.password_hash.as_str(), password) {
            Ok(true) => AuthResponse {
                success: true,
                message: String::from_str("Login successful"),
                user: Some(account.to_response()),
            },
            _ => AuthResponse {
                success: false,
                message: String::from_str("Invalid email or password"),
                user: None,
            },
        },
        Ok(None) => AuthResponse {
            success: false,
            message: String::from_str("Invalid email or password"),
            user: None,
        },
        Err(_) => AuthResponse {
            success: false,
            message: String::from_str("Login failed"),
            user: None,
        },
    }
}

/// After a registration is prepared and stored, the very account row it
/// wrote accepts the same password: a login that finds it succeeds.
pub proof fn lemma_register_then_login(account: User, password: Seq<char>)
    requires
        credentials_accepted(account.password_hash@, password),
    ensures
        login_accepts(Ok(Some(account)), password),
{
}

/// The HTTP status of a rejected request.
pub const UNAUTHORIZED: u16 = 401;

/// The HTTP status of a request that failed on storage.
pub const SERVER_ERROR: u16 = 500;

/// What the guard decides for one protected request.
#[derive(Debug)]
pub enum AuthDecision {
    /// The key resolved to an account: the request goes through to the
    /// Bible handler unchanged.
    Forward,
    /// The request is answered at once with this error.
    Reject(ApiError),
}

/// The guard's first step: demand the `x-api-key` header. A request
/// without it (or whose header is not valid text) is rejected before any
/// lookup is made.
pub fn check_api_key_header(header: Option<String>) -> (r: Result<String, ApiError>)
    ensures
        (match header {
            Some(key) => r is Ok && r->Ok_0@ == key@,
            None => r is Err && r->Err_0.status == UNAUTHORIZED && !r->Err_0.body.success
                && r->Err_0.body.error@ == "API key is required"@,
        }),
{
    match header {
        Some(key) => Ok(key),
        None => Err(
            ApiError {
                status: UNAUTHORIZED,
                body: ErrorResponse {
                    success: false,
                    error: String::from_str("API key is required"),
                },
            },
        ),
    }
}

/// The guard's second step: act on the repository's answer for the key.
/// The request is forwarded exactly when the key resolved to an account;
/// an unknown key is rejected as unauthorized, and a storage failure as
/// an internal error.
pub fn authorize_lookup(result: Result<Option<i32>, RepoError>) -> (r: AuthDecision)
    ensures
        (r is Forward) <==> (result is Ok && result->Ok_0 is Some),
        (match result {
            Ok(found) => match found {
                Some(_) => r is Forward,
                None => match r {
                    AuthDecision::Forward => false,
                    AuthDecision::Reject(e) => e.status == UNAUTHORIZED && !e.body.success
                        && e.body.error@ == "Invalid API key"@,
                },
            },
            Err(_) => match r {
                AuthDecision::Forward => false,
                AuthDecision::Reject(e) => e.status == SERVER_ERROR && !e.body.success
                    && e.body.error@ == "Internal server error"@,
            },
        }),
{
    match result {
        Ok(Some(_)) => AuthDecision::Forward,
        Ok(None) => AuthDecision::Reject(
            ApiError {
                status: UNAUTHORIZED,
                body: ErrorResponse {
                    success: false,
                    error: String::from_str("Invalid API key"),
                },
            },
        ),
        Err(_) => AuthDecision::Reject(
            ApiError {
                status: SERVER_ERROR,
                body: ErrorResponse {
                    success: false,
                    error: String::from_str("Internal server error"),
                },
            },
        ),
    }
}

} // verus!
