use cache_flow::api::dto::{LoginDTO, RegisterDTO, UserResponse, ValidateEmailDTO};
use cache_flow::api::errors::ErrorBody;
use cache_flow::api::handlers::{invalid_request_reply, me_reply, register_reply, Endpoint};
use cache_flow::api::middlewares::{authorization_token, bearer_token, header_text, UserContext};
use cache_flow::domain::entities::base::BaseFields;
use cache_flow::domain::entities::user::User;
use cache_flow::services::auth::{AuthError, Claims, RegisterResult};
use cache_flow::time::Timestamp;

fn user(verified: bool) -> User {
    User {
        base: BaseFields {
            id: uuid::Uuid::from_u128(11),
            created_at: Timestamp { secs: 100, nanos: 0 },
            updated_at: Timestamp { secs: 200, nanos: 0 },
        },
        email: "a@b.com".to_string(),
        password_hash: "h".to_string(),
        name: "Ann".to_string(),
        verified,
    }
}

#[test]
fn register_request_needs_an_email() {
    let ok = RegisterDTO { email: "user@example.com".to_string(), name: "S Z".to_string(), password: "qwerty".to_string() };
    assert!(ok.validate().is_ok());
    let bad = RegisterDTO { email: "not-an-email".to_string(), name: "S Z".to_string(), password: "qwerty".to_string() };
    let e = bad.validate().unwrap_err();
    assert_eq!(e.field, "email");
    assert_eq!(e.code, "email");
    assert_eq!(e.message.as_deref(), Some("Invalid email"));
}

#[test]
fn login_request_needs_an_email_username() {
    assert!(LoginDTO { username: "a@b.com".to_string(), password: "x".to_string() }.validate().is_ok());
    let e = LoginDTO { username: "abc@".to_string(), password: "x".to_string() }.validate().unwrap_err();
    assert_eq!(e.field, "username");
    assert_eq!(e.message.as_deref(), Some("Invalid email"));
}

#[test]
fn verify_request_needs_six_characters() {
    let id = uuid::Uuid::from_u128(1);
    assert!(ValidateEmailDTO { user_id: id, code: "123456".to_string() }.validate().is_ok());
    assert!(ValidateEmailDTO { user_id: id, code: "12345".to_string() }.validate().is_err());
    assert!(ValidateEmailDTO { user_id: id, code: "1234567".to_string() }.validate().is_err());
    let e = ValidateEmailDTO { user_id: id, code: "абвгде".to_string() }.validate();
    assert!(e.is_ok());
    let e = ValidateEmailDTO { user_id: id, code: String::new() }.validate().unwrap_err();
    assert_eq!(e.field, "code");
    assert_eq!(e.code, "length");
    assert!(e.message.is_none());
}

#[test]
fn user_response_shows_the_user() {
    let r = UserResponse::from(user(true));
    assert_eq!(r.id, uuid::Uuid::from_u128(11));
    assert_eq!(r.email, "a@b.com");
    assert_eq!(r.name, "Ann");
    assert_eq!(r.created_at, Timestamp { secs: 100, nanos: 0 });
    assert!(r.verified);
}

fn says(e: AuthError) -> (u16, String) {
    let r = e.into_response();
    match r.body {
        ErrorBody::Message(m) => (r.status, m),
        ErrorBody::User(_) => panic!("unexpected user body"),
    }
}

#[test]
fn error_replies() {
    assert_eq!(says(AuthError::UserAlreadyExists), (409, "User already exists".to_string()));
    assert_eq!(says(AuthError::Database("boom".to_string())), (500, "Internal error".to_string()));
    assert_eq!(says(AuthError::InvalidCode), (400, "Invalid code".to_string()));
    assert_eq!(says(AuthError::NotFound), (404, "No codes or invalid user id".to_string()));
    assert_eq!(says(AuthError::InvalidCredentials), (401, "Invalid creds".to_string()));
    assert_eq!(says(AuthError::JWTError("x".to_string())), (500, "JWT fault".to_string()));
    assert_eq!(says(AuthError::NotVerified), (403, "Not verified".to_string()));
    let bcrypt_err = bcrypt::verify("x", "garbage").unwrap_err();
    assert_eq!(says(AuthError::BcryptError(bcrypt_err)), (500, "Encryption failed".to_string()));
    let r = AuthError::AlreadySent(user(false)).into_response();
    assert_eq!(r.status, 202);
    match r.body {
        ErrorBody::User(u) => {
            assert_eq!(u.email, "a@b.com");
            assert!(!u.verified);
        }
        ErrorBody::Message(m) => panic!("unexpected message {m}"),
    }
}

#[test]
fn error_messages() {
    assert_eq!(AuthError::UserAlreadyExists.message(), "User already exists");
    assert_eq!(AuthError::Database("boom".to_string()).message(), "Database error: boom");
    assert_eq!(AuthError::AlreadySent(user(false)).message(), "Already sent email");
    assert_eq!(AuthError::NotFound.message(), "No user found");
    assert_eq!(AuthError::InvalidCode.message(), "Invalid code");
    assert_eq!(AuthError::InvalidCredentials.message(), "Invalid credentials");
    assert_eq!(AuthError::NotVerified.message(), "Not verified");
    assert_eq!(AuthError::JWTError("x".to_string()).message(), "JWT Error");
    let bcrypt_err = bcrypt::verify("x", "garbage").unwrap_err();
    let text = bcrypt_err.to_string();
    assert_eq!(AuthError::BcryptError(bcrypt_err).message(), format!("Encryption error: {text}"));
}

#[test]
fn bearer_tokens() {
    assert_eq!(bearer_token(Some("Bearer abc.def")).unwrap(), "abc.def");
    assert_eq!(bearer_token(Some("Bearer ")).unwrap(), "");
    let e = bearer_token(Some("Basic abc")).unwrap_err();
    assert_eq!(e.status, 401);
    assert_eq!(e.message, "Missing or invalid token");
    assert!(bearer_token(Some("bearer abc")).is_err());
    assert!(bearer_token(Some("Bearer")).is_err());
    assert!(bearer_token(None).is_err());
}

#[test]
fn user_context_from_checked_token() {
    let ctx = UserContext::from_checked_token(Some(Claims { user_id: uuid::Uuid::from_u128(5), exp: 10 })).unwrap();
    assert_eq!(ctx.user_id, uuid::Uuid::from_u128(5));
    let e = UserContext::from_checked_token(None).unwrap_err();
    assert_eq!(e.status, 401);
    assert_eq!(e.message, "Invalid or expired token");
}

#[test]
fn me_and_register_replies() {
    let (status, r) = me_reply(Some(user(true))).unwrap();
    assert_eq!(status, 200);
    assert_eq!(r.email, "a@b.com");
    assert!(matches!(me_reply(None), Err(AuthError::NotFound)));
    let (status, shown, job) = register_reply(RegisterResult { user: user(false), code: "012345".to_string() });
    assert_eq!(status, 201);
    assert_eq!(shown.name, "Ann");
    assert_eq!(job.email, "a@b.com");
    assert_eq!(job.name, "Ann");
    assert_eq!(job.code, "012345");
}

#[test]
fn invalid_request_replies() {
    let id = uuid::Uuid::from_u128(1);
    let e = ValidateEmailDTO { user_id: id, code: "12345".to_string() }.validate().unwrap_err();
    assert_eq!(invalid_request_reply(Endpoint::VerifyEmail, e), (409, "code: Validation error: length".to_string()));
    let bad = RegisterDTO { email: "x".to_string(), name: "n".to_string(), password: "p".to_string() };
    assert_eq!(invalid_request_reply(Endpoint::Register, bad.validate().unwrap_err()), (400, "email: Invalid email".to_string()));
    let e = LoginDTO { username: "x".to_string(), password: "p".to_string() }.validate().unwrap_err();
    assert_eq!(invalid_request_reply(Endpoint::Login, e), (400, "username: Invalid email".to_string()));
}

#[test]
fn header_bytes_read_as_text() {
    assert_eq!(header_text(b"Bearer a.b\tc").unwrap(), "Bearer a.b\tc");
    assert_eq!(header_text(b"").unwrap(), "");
    assert_eq!(header_text(b" ~").unwrap(), " ~");
    assert!(header_text(b"Bearer \x7f").is_none());
    assert!(header_text(b"Bearer \n").is_none());
    assert!(header_text("Bearer ё".as_bytes()).is_none());
}

#[test]
fn authorization_header_gives_token() {
    assert_eq!(authorization_token(Some(b"Bearer abc.def")).unwrap(), "abc.def");
    let e = authorization_token(Some(b"Bearer ab\x01c")).unwrap_err();
    assert_eq!(e.status, 401);
    assert_eq!(e.message, "Missing or invalid token");
    assert!(authorization_token(Some(b"Token abc")).is_err());
    assert!(authorization_token(None).is_err());
}
