use cache_flow::api::dto::RegisterDTO;
use cache_flow::config::{AuthSettings, DatabaseSettings, EmailSettings, Settings};
use cache_flow::domain::entities::base::BaseFields;
use cache_flow::domain::entities::email_code::{EmailCode, EmailCodeAction};
use cache_flow::domain::entities::user::User;
use cache_flow::services::auth::{
    AuthError, AuthService, LoginState, RegisterState, Reply, Request, Step, VerifyEmailState,
};
use cache_flow::time::Timestamp;

fn settings(code_expire_min: u16, access: i64, refresh: i64) -> Settings {
    Settings {
        email: EmailSettings {
            code_expire_min,
            smtp_host: "smtp.example.com".to_string(),
            smtp_port: 587,
            username: "mailer".to_string(),
            password: "pw".to_string(),
            from: "noreply@example.com".to_string(),
        },
        database: DatabaseSettings {
            user: "u".to_string(),
            password: "p".to_string(),
            host: "h".to_string(),
            port: 5432,
            name: "n".to_string(),
            pool_size: 1,
            pool_timeout: 1,
            pool_recycle: 1,
        },
        auth: AuthSettings { secret_key: "k".to_string(), access_expire_min: access, refresh_expire_min: refresh },
    }
}

fn at(secs: i64) -> Timestamp {
    Timestamp { secs, nanos: 0 }
}

fn stored_user(verified: bool, password_hash: &str) -> User {
    User {
        base: BaseFields { id: uuid::Uuid::from_u128(7), created_at: at(1_000), updated_at: at(1_000) },
        email: "a@b.com".to_string(),
        password_hash: password_hash.to_string(),
        name: "Ann".to_string(),
        verified,
    }
}

fn request() -> RegisterDTO {
    RegisterDTO { email: "a@b.com".to_string(), name: "Ann".to_string(), password: "qwerty".to_string() }
}

#[test]
fn register_new_user_creates_user_then_code() {
    let service = AuthService::new(settings(15, 30, 600));
    let (state, step) = AuthService::register_start(request());
    match step {
        Step::Perform(Request::UserByEmail(e)) => assert_eq!(e, "a@b.com"),
        other => panic!("unexpected {:?}", other),
    }
    let (state, step) = service.register_step(state, Reply::User(None), at(5_000));
    let created = match step {
        Step::Perform(Request::CreateUser(u)) => u,
        other => panic!("unexpected {:?}", other),
    };
    assert!(matches!(state, RegisterState::CreatingUser));
    assert_eq!(created.email, "a@b.com");
    assert_eq!(created.name, "Ann");
    assert!(!created.verified);
    assert_eq!(created.base.created_at, at(5_000));
    assert_eq!(created.base.updated_at, at(5_000));
    assert!(bcrypt::verify("qwerty", &created.password_hash).unwrap());
    let created_id = created.base.id;

    let (state, step) = service.register_step(state, Reply::SavedUser(created), at(5_001));
    let code = match step {
        Step::Perform(Request::CreateCode(c)) => c,
        other => panic!("unexpected {:?}", other),
    };
    let plain = match &state {
        RegisterState::StoringCode(u, plain) => {
            assert_eq!(u.email, "a@b.com");
            plain.clone()
        }
        other => panic!("unexpected {:?}", other),
    };
    assert_eq!(plain.len(), 6);
    assert!(plain.chars().all(|c| c.is_ascii_digit()));
    assert_eq!(code.action, EmailCodeAction::Register);
    assert_eq!(code.user_id, created_id);
    assert_eq!(code.expires_at, at(5_001 + 15 * 60));
    assert!(code.verify_at(&plain, at(5_002)));

    let (state, step) = service.register_step(state, Reply::SavedCode(code), at(5_002));
    assert!(matches!(state, RegisterState::Finished));
    match step {
        Step::Finish(Ok(r)) => {
            assert_eq!(r.code, plain);
            assert_eq!(r.user.email, "a@b.com");
        }
        other => panic!("unexpected {:?}", other),
    }
}

#[test]
fn register_verified_user_is_refused() {
    let service = AuthService::new(settings(15, 30, 600));
    let (state, _) = AuthService::register_start(request());
    let (state, step) = service.register_step(state, Reply::User(Some(stored_user(true, "h"))), at(5_000));
    assert!(matches!(state, RegisterState::Finished));
    assert!(matches!(step, Step::Finish(Err(AuthError::UserAlreadyExists))));
}

#[test]
fn register_unverified_with_pending_code_is_already_sent() {
    let service = AuthService::new(settings(15, 30, 600));
    let (state, _) = AuthService::register_start(request());
    let (state, step) = service.register_step(state, Reply::User(Some(stored_user(false, "h"))), at(5_000));
    match &step {
        Step::Perform(Request::CodeByUserAction(id, EmailCodeAction::Register)) => {
            assert_eq!(*id, uuid::Uuid::from_u128(7))
        }
        other => panic!("unexpected {:?}", other),
    }
    let pending = EmailCode::new_at("123456", EmailCodeAction::Register, uuid::Uuid::from_u128(7), 15, at(4_900));
    let (state, step) = service.register_step(state, Reply::Code(Some(pending)), at(5_000));
    assert!(matches!(state, RegisterState::Finished));
    match step {
        Step::Finish(Err(AuthError::AlreadySent(u))) => assert_eq!(u.email, "a@b.com"),
        other => panic!("unexpected {:?}", other),
    }
}

#[test]
fn register_unverified_with_expired_code_deletes_and_reissues() {
    let service = AuthService::new(settings(15, 30, 600));
    let (state, _) = AuthService::register_start(request());
    let (state, _) = service.register_step(state, Reply::User(Some(stored_user(false, "h"))), at(5_000));
    let stale = EmailCode::new_at("123456", EmailCodeAction::Register, uuid::Uuid::from_u128(7), 15, at(1_000));
    let (state, step) = service.register_step(state, Reply::Code(Some(stale)), at(5_000));
    assert!(matches!(state, RegisterState::DeletingCodes(_)));
    assert!(matches!(step, Step::Perform(Request::DeleteCodesByUserAction(_, EmailCodeAction::Register))));
    let (state, step) = service.register_step(state, Reply::Deleted, at(5_010));
    assert!(matches!(state, RegisterState::StoringCode(_, _)));
    match step {
        Step::Perform(Request::CreateCode(c)) => assert_eq!(c.expires_at, at(5_010 + 900)),
        other => panic!("unexpected {:?}", other),
    }
}

#[test]
fn register_unverified_without_code_issues_one() {
    let service = AuthService::new(settings(1, 30, 600));
    let (state, _) = AuthService::register_start(request());
    let (state, _) = service.register_step(state, Reply::User(Some(stored_user(false, "h"))), at(5_000));
    let (state, step) = service.register_step(state, Reply::Code(None), at(6_000));
    assert!(matches!(state, RegisterState::StoringCode(_, _)));
    match step {
        Step::Perform(Request::CreateCode(c)) => assert_eq!(c.expires_at, at(6_060)),
        other => panic!("unexpected {:?}", other),
    }
}

#[test]
fn register_database_failure_is_reported() {
    let service = AuthService::new(settings(15, 30, 600));
    let (state, _) = AuthService::register_start(request());
    let (state, step) = service.register_step(state, Reply::Failed("connection refused".to_string()), at(5_000));
    assert!(matches!(state, RegisterState::Finished));
    match step {
        Step::Finish(Err(AuthError::Database(e))) => assert_eq!(e, "connection refused"),
        other => panic!("unexpected {:?}", other),
    }
}

#[test]
fn register_step_now_reads_the_clock() {
    let service = AuthService::new(settings(15, 30, 600));
    let (state, _) = AuthService::register_start(request());
    let (decided, now) = service.register_step_now(state, Reply::User(Some(stored_user(false, "h"))));
    let (state, step) = decided.expect("no code is issued in this step");
    assert!(now.secs > 1_600_000_000);
    assert!(matches!(state, RegisterState::LookingUpCode(_)));
    assert!(matches!(step, Step::Perform(Request::CodeByUserAction(_, _))));
}

fn unverified_state(code: &str) -> VerifyEmailState {
    let (state, _) = AuthService::verify_email_start(uuid::Uuid::from_u128(7), code);
    let (state, step) = AuthService::verify_email_step(state, Reply::User(Some(stored_user(false, "h"))), at(0));
    assert!(matches!(step, Step::Perform(Request::CodeByUserAction(_, EmailCodeAction::Register))));
    state
}

#[test]
fn verify_email_with_right_code_marks_verified() {
    let state = unverified_state("654321");
    let stored = EmailCode::new_at("654321", EmailCodeAction::Register, uuid::Uuid::from_u128(7), 15, at(1_000));
    let code_id = stored.id();
    let (state, step) = AuthService::verify_email_step(state, Reply::Code(Some(stored)), at(1_899));
    let updated = match step {
        Step::Perform(Request::UpdateUser(u)) => u,
        other => panic!("unexpected {:?}", other),
    };
    assert!(updated.verified);
    assert_eq!(updated.email, "a@b.com");
    let (state, step) = AuthService::verify_email_step(state, Reply::SavedUser(updated), at(1_900));
    match step {
        Step::Perform(Request::DeleteCodeById(id)) => assert_eq!(id, code_id),
        other => panic!("unexpected {:?}", other),
    }
    let (state, step) = AuthService::verify_email_step(state, Reply::Deleted, at(1_900));
    assert!(matches!(state, VerifyEmailState::Finished));
    match step {
        Step::Finish(Ok(u)) => assert!(u.verified),
        other => panic!("unexpected {:?}", other),
    }
}

#[test]
fn verify_email_with_wrong_code_is_invalid() {
    let state = unverified_state("000000");
    let stored = EmailCode::new_at("654321", EmailCodeAction::Register, uuid::Uuid::from_u128(7), 15, at(1_000));
    let (_, step) = AuthService::verify_email_step(state, Reply::Code(Some(stored)), at(1_001));
    assert!(matches!(step, Step::Finish(Err(AuthError::InvalidCode))));
}

#[test]
fn verify_email_at_expiry_is_invalid() {
    let state = unverified_state("654321");
    let stored = EmailCode::new_at("654321", EmailCodeAction::Register, uuid::Uuid::from_u128(7), 15, at(1_000));
    let (_, step) = AuthService::verify_email_step(state, Reply::Code(Some(stored)), at(1_900));
    assert!(matches!(step, Step::Finish(Err(AuthError::InvalidCode))));
}

#[test]
fn verify_email_without_user_or_code_is_not_found() {
    let (state, _) = AuthService::verify_email_start(uuid::Uuid::from_u128(9), "123456");
    let (_, step) = AuthService::verify_email_step(state, Reply::User(None), at(0));
    assert!(matches!(step, Step::Finish(Err(AuthError::NotFound))));
    let state = unverified_state("123456");
    let (_, step) = AuthService::verify_email_step(state, Reply::Code(None), at(0));
    assert!(matches!(step, Step::Finish(Err(AuthError::NotFound))));
}

#[test]
fn verify_email_of_verified_user_returns_it() {
    let (state, _) = AuthService::verify_email_start(uuid::Uuid::from_u128(7), "whatever");
    let (state, step) = AuthService::verify_email_step(state, Reply::User(Some(stored_user(true, "h"))), at(0));
    assert!(matches!(state, VerifyEmailState::Finished));
    match step {
        Step::Finish(Ok(u)) => assert!(u.verified),
        other => panic!("unexpected {:?}", other),
    }
}

fn login_until_user(service: &AuthService, password: &str, found: Option<User>, now: Timestamp) -> (LoginState, Step<cache_flow::api::dto::TokenResponse>) {
    let (state, step) = AuthService::login_start("a@b.com", password);
    match step {
        Step::Perform(Request::UserByEmail(e)) => assert_eq!(e, "a@b.com"),
        other => panic!("unexpected {:?}", other),
    }
    service.login_step(state, Reply::User(found), now)
}

#[test]
fn login_with_right_password_signs_both_tokens() {
    let service = AuthService::new(settings(15, 30, 600));
    let hash = bcrypt::hash("qwerty", 4).unwrap();
    let (state, step) = login_until_user(&service, "qwerty", Some(stored_user(true, &hash)), at(10_000));
    match step {
        Step::Perform(Request::SignToken(c, key)) => {
            assert_eq!(key, "k");
            assert_eq!(c.user_id, uuid::Uuid::from_u128(7));
            assert_eq!(c.exp, 10_000 + 30 * 60);
        }
        other => panic!("unexpected {:?}", other),
    }
    let (state, step) = service.login_step(state, Reply::Signed("access.jwt".to_string()), at(10_002));
    match step {
        Step::Perform(Request::SignToken(c, key)) => {
            assert_eq!(key, "k");
            assert_eq!(c.exp, 10_002 + 600 * 60);
        }
        other => panic!("unexpected {:?}", other),
    }
    let (state, step) = service.login_step(state, Reply::Signed("refresh.jwt".to_string()), at(10_003));
    assert!(matches!(state, LoginState::Finished));
    match step {
        Step::Finish(Ok(t)) => {
            assert_eq!(t.access_token, "access.jwt");
            assert_eq!(t.refresh_token, "refresh.jwt");
            assert_eq!(t.token_type, "Bearer");
            assert_eq!(t.expires_in, 1_800);
        }
        other => panic!("unexpected {:?}", other),
    }
}

#[test]
fn login_refusals() {
    let service = AuthService::new(settings(15, 30, 600));
    let hash = bcrypt::hash("qwerty", 4).unwrap();
    let (_, step) = login_until_user(&service, "qwerty", None, at(0));
    assert!(matches!(step, Step::Finish(Err(AuthError::InvalidCredentials))));
    let (_, step) = login_until_user(&service, "wrong", Some(stored_user(true, &hash)), at(0));
    assert!(matches!(step, Step::Finish(Err(AuthError::InvalidCredentials))));
    let (_, step) = login_until_user(&service, "qwerty", Some(stored_user(false, &hash)), at(0));
    assert!(matches!(step, Step::Finish(Err(AuthError::NotVerified))));
    let (_, step) = login_until_user(&service, "qwerty", Some(stored_user(true, "not a hash")), at(0));
    let expected = bcrypt::verify("qwerty", "not a hash").unwrap_err();
    match step {
        Step::Finish(Err(AuthError::BcryptError(e))) => assert_eq!(format!("{e:?}"), format!("{expected:?}")),
        other => panic!("unexpected {:?}", other),
    }
}

#[test]
fn login_signing_failure_is_jwt_error() {
    let service = AuthService::new(settings(15, 30, 600));
    let hash = bcrypt::hash("qwerty", 4).unwrap();
    let (state, _) = login_until_user(&service, "qwerty", Some(stored_user(true, &hash)), at(10_000));
    let (state, step) = service.login_step(state, Reply::Failed("bad key".to_string()), at(10_000));
    assert!(matches!(state, LoginState::Finished));
    match step {
        Step::Finish(Err(AuthError::JWTError(e))) => assert_eq!(e, "bad key"),
        other => panic!("unexpected {:?}", other),
    }
}

#[test]
fn login_step_now_refuses_out_of_range_expiry() {
    let service = AuthService::new(settings(15, i64::MAX, 600));
    let hash = bcrypt::hash("qwerty", 4).unwrap();
    let (state, _) = AuthService::login_start("a@b.com", "qwerty");
    let (decided, now) = service.login_step_now(state, Reply::User(Some(stored_user(true, &hash))));
    assert!(decided.is_none());
    assert!(now.secs > 1_600_000_000);
}

#[test]
fn login_checks_the_password_before_the_expiry_range() {
    let service = AuthService::new(settings(15, i64::MAX, 600));
    let hash = bcrypt::hash("qwerty", 4).unwrap();
    let (state, _) = AuthService::login_start("a@b.com", "wrong");
    let decided = service.login_step_at(state, Reply::User(Some(stored_user(true, &hash))), at(10_000));
    match decided {
        Some((LoginState::Finished, Step::Finish(Err(AuthError::InvalidCredentials)))) => {}
        other => panic!("unexpected {:?}", other),
    }
    let (state, _) = AuthService::login_start("a@b.com", "qwerty");
    assert!(service.login_step_at(state, Reply::User(Some(stored_user(true, &hash))), at(10_000)).is_none());
}

#[test]
fn register_step_at_refuses_only_an_expiry_out_of_range() {
    let service = AuthService::new(settings(15, 30, 600));
    let end = Timestamp { secs: cache_flow::time::MAX_SECS - 60, nanos: 0 };
    let (state, _) = AuthService::register_start(request());
    let (state, _) = service.register_step(state, Reply::User(Some(stored_user(false, "h"))), at(5_000));
    assert!(service.register_step_at(state, Reply::Code(None), end).is_none());
    let (state, _) = AuthService::register_start(request());
    let decided = service.register_step_at(state, Reply::User(Some(stored_user(true, "h"))), end);
    assert!(matches!(decided, Some((RegisterState::Finished, Step::Finish(Err(AuthError::UserAlreadyExists))))));
}

#[test]
fn get_by_id_returns_what_was_found() {
    let (state, step) = AuthService::get_by_id_start(uuid::Uuid::from_u128(7));
    assert!(matches!(step, Step::Perform(Request::UserById(_))));
    let (_, step) = AuthService::get_by_id_step(state, Reply::User(None));
    assert!(matches!(step, Step::Finish(Ok(None))));
}

#[test]
fn registered_user_verifies_and_logs_in() {
    let service = AuthService::new(settings(15, 30, 600));
    let mut requests = 0;

    let (state, _) = AuthService::register_start(request());
    requests += 1;
    let (state, step) = service.register_step(state, Reply::User(None), at(5_000));
    requests += 1;
    let created = match step {
        Step::Perform(Request::CreateUser(u)) => u,
        other => panic!("unexpected {:?}", other),
    };
    let (state, step) = service.register_step(state, Reply::SavedUser(created.clone()), at(5_001));
    requests += 1;
    let stored_code = match step {
        Step::Perform(Request::CreateCode(c)) => c,
        other => panic!("unexpected {:?}", other),
    };
    let (_, step) = service.register_step(state, Reply::SavedCode(stored_code.clone()), at(5_002));
    let sent = match step {
        Step::Finish(Ok(r)) => r.code,
        other => panic!("unexpected {:?}", other),
    };
    assert!(requests <= 4);

    let (state, _) = AuthService::verify_email_start(created.base.id, &sent);
    let (state, _) = AuthService::verify_email_step(state, Reply::User(Some(created.clone())), at(5_100));
    let (state, step) = AuthService::verify_email_step(state, Reply::Code(Some(stored_code)), at(5_100));
    let verified = match step {
        Step::Perform(Request::UpdateUser(u)) => u,
        other => panic!("unexpected {:?}", other),
    };
    let (state, _) = AuthService::verify_email_step(state, Reply::SavedUser(verified.clone()), at(5_100));
    let (_, step) = AuthService::verify_email_step(state, Reply::Deleted, at(5_100));
    assert!(matches!(step, Step::Finish(Ok(ref u)) if u.verified));

    let (state, _) = AuthService::login_start("a@b.com", "qwerty");
    let (_, step) = service.login_step(state, Reply::User(Some(verified)), at(6_000));
    match step {
        Step::Perform(Request::SignToken(c, _)) => {
            assert_eq!(c.user_id, created.base.id);
            assert_eq!(c.exp, 6_000 + 1_800);
        }
        other => panic!("unexpected {:?}", other),
    }
}

#[test]
fn states_accept_only_their_answers() {
    let (state, _) = AuthService::login_start("ann@example.com", "pw");
    assert!(state.accepts(&Reply::User(None)));
    assert!(state.accepts(&Reply::Failed("down".to_string())));
    assert!(!state.accepts(&Reply::Deleted));
    assert!(!state.accepts(&Reply::Signed("t".to_string())));
    assert!(!LoginState::Finished.accepts(&Reply::Failed("down".to_string())));
    let (state, _) = AuthService::verify_email_start(uuid::Uuid::nil(), "123456");
    assert!(state.accepts(&Reply::User(None)));
    assert!(!state.accepts(&Reply::Code(None)));
    assert!(RegisterState::CreatingUser.accepts(&Reply::Failed("x".to_string())));
    assert!(!RegisterState::CreatingUser.accepts(&Reply::Deleted));
    assert!(!VerifyEmailState::Finished.accepts(&Reply::Deleted));
}
