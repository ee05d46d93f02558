use vstd::prelude::*;

use crate::api::dto::UserResponse;
use crate::services::auth::AuthError;

verus! {

/// The text of a password-hashing error (its `Display`). Nothing is stated
/// of the text.
#[verifier::external_body]
fn bcrypt_error_text(e: &bcrypt::BcryptError) -> String {
    e.to_string()
}

/// The body of an error reply: `{"error": message}`, or the user as shown
/// by the API.
#[derive(Debug)]
pub enum ErrorBody {
    Message(String),
    User(UserResponse),
}

/// An error reply: HTTP status and body.
#[derive(Debug)]
pub struct ErrorResponse {
    pub status: u16,
    pub body: ErrorBody,
}

impl ErrorResponse {
    /// The reply has `status` and the message `message`.
    pub open spec fn says(self, status: u16, message: Seq<char>) -> bool {
        &&& self.status == status
        &&& self.body matches ErrorBody::Message(m) && m@ == message
    }
}

impl AuthError {
    /// The text of the error.
    pub fn message(&self) -> (m: String)
        ensures
            match self {
                AuthError::UserAlreadyExists => m@ == "User already exists"@,
                AuthError::Database(e) => m@ == "Database error: "@ + e@,
                AuthError::BcryptError(_) => m@.take(18) == "Encryption error: "@,
                AuthError::AlreadySent(_) => m@ == "Already sent email"@,
                AuthError::NotFound => m@ == "No user found"@,
                AuthError::InvalidCode => m@ == "Invalid code"@,
                AuthError::InvalidCredentials => m@ == "Invalid credentials"@,
                AuthError::NotVerified => m@ == "Not verified"@,
                AuthError::JWTError(_) => m@ == "JWT Error"@,
            },
    {
        match self {
            AuthError::UserAlreadyExists => String::from_str("User already exists"),
            AuthError::Database(e) => {
                let mut m = String::from_str("Database error: ");
                m.append(e.as_str());
                m
            },
            AuthError::BcryptError(e) => {
                let prefix = String::from_str("Encryption error: ");
                let text = bcrypt_error_text(e);
                proof {
                    reveal_strlit("Encryption error: ");
                }
                let m = prefix.concat(text.as_str());
                assert(m@.take(18) =~= "Encryption error: "@);
                m
            },
            AuthError::AlreadySent(_) => String::from_str("Already sent email"),
            AuthError::NotFound => String::from_str("No user found"),
            AuthError::InvalidCode => String::from_str("Invalid code"),
            AuthError::InvalidCredentials => String::from_str("Invalid credentials"),
            AuthError::NotVerified => String::from_str("Not verified"),
            AuthError::JWTError(_) => String::from_str("JWT Error"),
        }
    }

    /// The reply to send for the error. Failures inside the service are
    /// reported without their details; a code that was already sent is
    /// answered with the user, as accepted.
    pub fn into_response(self) -> (r: ErrorResponse)
        ensures
            match self {
                AuthError::UserAlreadyExists => r.says(409, "User already exists"@),
                AuthError::Database(_) => r.says(500, "Internal error"@),
                AuthError::BcryptError(_) => r.says(500, "Encryption failed"@),
                AuthError::AlreadySent(u) => r.status == 202 && r.body == ErrorBody::User(UserResponse::of(u)),
                AuthError::InvalidCode => r.says(400, "Invalid code"@),
                AuthError::NotFound => r.says(404, "No codes or invalid user id"@),
                AuthError::InvalidCredentials => r.says(401, "Invalid creds"@),
                AuthError::JWTError(_) => r.says(500, "JWT fault"@),
                AuthError::NotVerified => r.says(403, "Not verified"@),
            },
    {
        let (status, message) = match self {
            AuthError::UserAlreadyExists => (409u16, self.message()),
            AuthError::Database(_) => (500u16, String::from_str("Internal error")),
            AuthError::BcryptError(_) => (500u16, String::from_str("Encryption failed")),
            AuthError::AlreadySent(user) => {
                return ErrorResponse { status: 202, body: ErrorBody::User(UserResponse::from(user)) };
            },
            AuthError::InvalidCode => (400u16, String::from_str("Invalid code")),
            AuthError::NotFound => (404u16, String::from_str("No codes or invalid user id")),
            AuthError::InvalidCredentials => (401u16, String::from_str("Invalid creds")),
            AuthError::JWTError(_) => (500u16, String::from_str("JWT fault")),
            AuthError::NotVerified => (403u16, String::from_str("Not verified")),
        };
        ErrorResponse { status, body: ErrorBody::Message(message) }
    }
}

} // verus!
