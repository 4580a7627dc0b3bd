//! Accounts and the opaque API keys that guard the Bible endpoints.

use vstd::prelude::*;
use vstd::string::StringExecFns;

verus! {

/// A stored account row. `created_at` is the insertion time as Unix
/// seconds; the store assigns it together with `id`.
#[derive(Debug)]
pub struct User {
    pub id: i32,
    pub email: String,
    pub password_hash: String,
    pub api_key: String,
    pub created_at: i64,
}

/// The body of a registration request.
#[derive(Debug)]
pub struct RegisterUser {
    pub email: String,
    pub password: String,
}

/// The body of a login request.
#[derive(Debug)]
pub struct LoginUser {
    pub email: String,
    pub password: String,
}

/// The public projection of an account: what responses carry.
#[derive(Debug)]
pub struct UserResponse {
    pub id: i32,
    pub email: String,
    pub api_key: String,
}

/// The response to a registration or login request.
#[derive(Debug)]
pub struct AuthResponse {
    pub success: bool,
    pub message: String,
    pub user: Option<UserResponse>,
}

/// The character a hyphenated lowercase uuid holds at position `i`:
/// a hyphen at 8, 13, 18 and 23, a lowercase hex digit elsewhere.
pub open spec fn uuid_char_ok(c: char, i: int) -> bool {
    if i == 8 || i == 13 || i == 18 || i == 23 {
        c == '-'
    } else {
        ('0' <= c && c <= '9') || ('a' <= c && c <= 'f')
    }
}

/// A hyphenated lowercase uuid: 36 characters in groups of 8, 4, 4, 4
/// and 12 hex digits.
pub open spec fn is_uuid_text(s: Seq<char>) -> bool {
    s.len() == 36 && forall|i: int| 0 <= i < 36 ==> uuid_char_ok(#[trigger] s[i], i)
}

/// A well-formed api key: the fixed prefix followed by a hyphenated uuid.
pub open spec fn api_key_wf(k: Seq<char>) -> bool {
    k.len() == 43 && k.subrange(0, 7) == "safina_"@ && is_uuid_text(k.subrange(7, 43))
}

/// Relies on `uuid::Uuid::new_v4` and its `Display` form: 36 characters,
/// lowercase hexadecimal in five hyphen-separated groups of 8, 4, 4, 4
/// and 12 digits. The value drawn is random; only its shape is stated.
#[verifier::external_body]
fn new_uuid_string() -> (r: String)
    ensures
        is_uuid_text(r@),
{
    uuid::Uuid::new_v4().to_string()
}

impl User {
    /// A fresh opaque api key: the fixed prefix and a random uuid.
    pub fn generate_api_key() -> (r: String)
        ensures
            api_key_wf(r@),
    {
        let mut key = String::from_str("safina_");
        let suffix = new_uuid_string();
        key.append(suffix.as_str());
        proof {
            reveal_strlit("safina_");
            assert(key@.subrange(0, 7) =~= "safina_"@);
            assert(key@.subrange(7, 43) =~= suffix@);
        }
        key
    }

    /// The public projection of this account.
    pub fn to_response(&self) -> (r: UserResponse)
        ensures
            r.id == self.id,
            r.email@ == self.email@,
            r.api_key@ == self.api_key@,
    {
        UserResponse { id: self.id, email: self.email.clone(), api_key: self.api_key.clone() }
    }
}

} // verus!
