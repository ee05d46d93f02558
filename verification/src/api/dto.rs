use vstd::prelude::*;

use crate::domain::entities::user::User;
use crate::time::Timestamp;

verus! {

/// Whether `validator` accepts a text as an e-mail address (the HTML5 rule
/// with length limits and internationalised domains).
pub uninterp spec fn email_valid(text: Seq<char>) -> bool;

/// `validator::ValidateEmail::validate_email` on a text. A text without `@`
/// is never an address.
#[verifier::external_body]
fn validate_email(text: &str) -> (b: bool)
    ensures
        b == email_valid(text@),
        !text@.contains('@') ==> !b,
{
    validator::ValidateEmail::validate_email(&text)
}

/// One failed field check of a request body.
#[derive(Debug)]
pub struct FieldError {
    pub field: String,
    pub code: String,
    pub message: Option<String>,
}

impl FieldError {
    /// The field is named `field`, the check is `code`, the message is `message`.
    pub open spec fn is(&self, field: Seq<char>, code: Seq<char>, message: Option<Seq<char>>) -> bool {
        &&& self.field@ == field
        &&& self.code@ == code
        &&& match (self.message, message) {
            (Some(m), Some(n)) => m@ == n,
            (None, None) => true,
            _ => false,
        }
    }
}

/// The e-mail check of a field, with the message "Invalid email".
fn email_check(field: &str, value: &str) -> (r: Result<(), FieldError>)
    ensures
        r is Ok <==> email_valid(value@),
        r matches Err(e) ==> e.is(field@, "email"@, Some("Invalid email"@)),
{
    if validate_email(value) {
        Ok(())
    } else {
        Err(FieldError {
            field: String::from_str(field),
            code: String::from_str("email"),
            message: Some(String::from_str("Invalid email")),
        })
    }
}

/// A registration request.
#[derive(Debug)]
pub struct RegisterDTO {
    pub email: String,
    pub name: String,
    pub password: String,
}

impl RegisterDTO {
    /// The request is accepted when `email` is an e-mail address.
    pub fn validate(&self) -> (r: Result<(), FieldError>)
        ensures
            r is Ok <==> email_valid(self.email@),
            r matches Err(e) ==> e.is("email"@, "email"@, Some("Invalid email"@)),
    {
        email_check("email", self.email.as_str())
    }
}

/// A user as the API shows it.
#[derive(Debug)]
pub struct UserResponse {
    pub id: uuid::Uuid,
    pub email: String,
    pub name: String,
    pub created_at: Timestamp,
    pub verified: bool,
}

impl UserResponse {
    /// How the API shows a user: its identifier, e-mail, name, creation time
    /// and whether it is verified.
    pub open spec fn of(user: User) -> UserResponse {
        UserResponse {
            id: user.base.id,
            email: user.email,
            name: user.name,
            created_at: user.base.created_at,
            verified: user.verified,
        }
    }
}

impl From<User> for UserResponse {
    fn from(user: User) -> (r: UserResponse) {
        UserResponse {
            id: user.base.id,
            email: user.email,
            name: user.name,
            created_at: user.base.created_at,
            verified: user.verified,
        }
    }
}

impl vstd::std_specs::convert::FromSpecImpl<User> for UserResponse {
    open spec fn obeys_from_spec() -> bool {
        true
    }

    open spec fn from_spec(user: User) -> UserResponse {
        UserResponse::of(user)
    }
}

/// An e-mail verification request: the user and the code that was sent.
#[derive(Debug)]
pub struct ValidateEmailDTO {
    pub user_id: uuid::Uuid,
    pub code: String,
}

impl ValidateEmailDTO {
    /// The request is accepted when the code is exactly six characters long.
    pub fn validate(&self) -> (r: Result<(), FieldError>)
        ensures
            r is Ok <==> self.code@.len() == 6,
            r matches Err(e) ==> e.is("code"@, "length"@, None),
    {
        if self.code.as_str().unicode_len() == 6 {
            Ok(())
        } else {
            Err(FieldError { field: String::from_str("code"), code: String::from_str("length"), message: None })
        }
    }
}

/// A login request; the user name is the e-mail address.
#[derive(Debug)]
pub struct LoginDTO {
    pub username: String,
    pub password: String,
}

impl LoginDTO {
    /// The request is accepted when `username` is an e-mail address.
    pub fn validate(&self) -> (r: Result<(), FieldError>)
        ensures
            r is Ok <==> email_valid(self.username@),
            r matches Err(e) ==> e.is("username"@, "email"@, Some("Invalid email"@)),
    {
        email_check("username", self.username.as_str())
    }
}

/// The tokens handed out at login.
#[derive(Debug)]
pub struct TokenResponse {
    pub access_token: String,
    pub refresh_token: String,
    pub token_type: String,
    pub expires_in: i64,
}

} // verus!
