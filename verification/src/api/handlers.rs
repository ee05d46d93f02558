use vstd::prelude::*;

use crate::api::dto::{FieldError, UserResponse};
use crate::domain::entities::user::User;
use crate::services::auth::{AuthError, RegisterResult};

verus! {

/// The verification mail to send after a registration: to whom, addressed
/// how, and the plain code.
#[derive(Debug)]
pub struct VerificationJob {
    pub email: String,
    pub name: String,
    pub code: String,
}

/// The reply to a successful registration (status 201 and the user) and
/// the verification mail to send in the background.
pub fn register_reply(res: RegisterResult) -> (r: (u16, UserResponse, VerificationJob))
    ensures
        r.0 == 201,
        r.1 == UserResponse::of(res.user),
        r.2.email@ == res.user.email@,
        r.2.name@ == res.user.name@,
        r.2.code == res.code,
{
    let email = res.user.email.clone();
    let name = res.user.name.clone();
    let job = VerificationJob { email, name, code: res.code };
    (201, UserResponse::from(res.user), job)
}

/// The reply to a request for the current user: status 200 and the user, or
/// "not found" when the token's user no longer exists.
pub fn me_reply(found: Option<User>) -> (r: Result<(u16, UserResponse), AuthError>)
    ensures
        match found {
            Some(u) => r == Ok::<(u16, UserResponse), AuthError>((200, UserResponse::of(u))),
            None => r matches Err(AuthError::NotFound),
        },
{
    match found {
        Some(u) => Ok((200, UserResponse::from(u))),
        None => Err(AuthError::NotFound),
    }
}

/// The requests whose bodies are checked before the service sees them.
#[derive(Debug, Clone, Copy, PartialEq, Eq, Structural)]
pub enum Endpoint {
    Register,
    VerifyEmail,
    Login,
}

/// The status of a request whose body fails its check: 409 for an e-mail
/// verification, 400 for a registration or a login, as the API documents.
pub open spec fn invalid_request_status(endpoint: Endpoint) -> u16 {
    match endpoint {
        Endpoint::Register => 400,
        Endpoint::VerifyEmail => 409,
        Endpoint::Login => 400,
    }
}

/// The text of a failed check: the field, then its message, or
/// `Validation error: ` and the name of the check when it has no message.
/// Each checked body has one checked field, so at most one field fails.
/// Where a check has no message, `validator` prints the check's parameters
/// after its name, walking a `HashMap` in an order that differs from process
/// to process; that part is left out, and the text is the same for equal
/// inputs.
pub open spec fn field_error_text(field: Seq<char>, code: Seq<char>, message: Option<Seq<char>>) -> Seq<char> {
    field + ": "@ + match message {
        Some(m) => m,
        None => "Validation error: "@ + code,
    }
}

/// The reply to a request whose body failed its check; the service is not
/// asked.
pub fn invalid_request_reply(endpoint: Endpoint, error: FieldError) -> (r: (u16, String))
    ensures
        r.0 == invalid_request_status(endpoint),
        r.1@ == field_error_text(error.field@, error.code@, match error.message {
            Some(m) => Some(m@),
            None => None,
        }),
{
    let status: u16 = match endpoint {
        Endpoint::Register => 400,
        Endpoint::VerifyEmail => 409,
        Endpoint::Login => 400,
    };
    let mut text = error.field;
    text.append(": ");
    match error.message {
        Some(m) => text.append(m.as_str()),
        None => {
            text.append("Validation error: ");
            text.append(error.code.as_str());
        },
    }
    (status, text)
}

} // verus!
