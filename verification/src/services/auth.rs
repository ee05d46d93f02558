use vstd::prelude::*;

use crate::api::dto::{RegisterDTO, TokenResponse};
use crate::config::Settings;
use crate::domain::entities::email_code::{code_hash_of, lemma_expired_iff_expiry_passed, EmailCode, EmailCodeAction};
use crate::domain::entities::user::{bcrypt_verdict, verify_password, User};
use crate::text::{all_digits, zero_padded, zero_padded_string, lemma_decimal_len_bound, lemma_zero_padded_digits};
use crate::time::Timestamp;
use vstd::arithmetic::power::pow;
use rand::Rng;

verus! {

/// What an access or refresh token asserts: whose it is and until when
/// (seconds since the Unix epoch).
#[derive(Debug, Clone, Copy)]
pub struct Claims {
    pub user_id: uuid::Uuid,
    pub exp: usize,
}

/// A registered (or re-registered) user and the plain code to send them.
#[derive(Debug)]
pub struct RegisterResult {
    pub user: User,
    pub code: String,
}

/// Why an authentication flow stopped.
#[derive(Debug)]
pub enum AuthError {
    UserAlreadyExists,
    /// A storage request failed; the failure's text.
    Database(String),
    BcryptError(bcrypt::BcryptError),
    /// A code was sent to this unverified user and has not expired yet.
    AlreadySent(User),
    NotFound,
    InvalidCode,
    InvalidCredentials,
    NotVerified,
    /// Signing a token failed; the failure's text.
    JWTError(String),
}

/// A request an authentication flow needs answered from outside: a storage
/// operation, or signing a token.
#[derive(Debug)]
pub enum Request {
    UserByEmail(String),
    UserById(uuid::Uuid),
    CreateUser(User),
    UpdateUser(User),
    CodeByUserAction(uuid::Uuid, EmailCodeAction),
    DeleteCodesByUserAction(uuid::Uuid, EmailCodeAction),
    CreateCode(EmailCode),
    DeleteCodeById(uuid::Uuid),
    /// Sign the claims with the key.
    SignToken(Claims, String),
}

/// The answer to a request.
#[derive(Debug)]
pub enum Reply {
    /// The user found by e-mail or identifier, if any.
    User(Option<User>),
    /// The user as stored after a create or update.
    SavedUser(User),
    /// The code found for a user and action, if any.
    Code(Option<EmailCode>),
    /// The code as stored after a create.
    SavedCode(EmailCode),
    /// A delete was carried out.
    Deleted,
    /// The signed token.
    Signed(String),
    /// The request failed; the failure's text.
    Failed(String),
}

impl Request {
    /// The request changes what is stored.
    pub open spec fn writes(self) -> bool {
        ||| self is CreateUser
        ||| self is UpdateUser
        ||| self is DeleteCodesByUserAction
        ||| self is CreateCode
        ||| self is DeleteCodeById
    }

    /// `reply` is an answer of the kind this request calls for.
    pub open spec fn answered_by(&self, reply: Reply) -> bool {
        match reply {
            Reply::Failed(_) => true,
            Reply::User(_) => self is UserByEmail || self is UserById,
            Reply::SavedUser(_) => self is CreateUser || self is UpdateUser,
            Reply::Code(_) => self is CodeByUserAction,
            Reply::SavedCode(_) => self is CreateCode,
            Reply::Deleted => self is DeleteCodesByUserAction || self is DeleteCodeById,
            Reply::Signed(_) => self is SignToken,
        }
    }
}

/// What a flow does next: have a request carried out, or end with a result.
#[derive(Debug)]
pub enum Step<T> {
    Perform(Request),
    Finish(Result<T, AuthError>),
}

impl<T> Step<T> {
    /// Every answer of the kind the step's request calls for is one that
    /// `expects` accepts; a finished flow expects nothing.
    pub open spec fn hands_over(self, expects: spec_fn(Reply) -> bool) -> bool {
        match self {
            Step::Perform(r) => forall|reply: Reply| #[trigger] r.answered_by(reply) ==> expects(reply),
            Step::Finish(_) => forall|reply: Reply| !#[trigger] expects(reply),
        }
    }
}

/// A uniformly random number below `max` (`rand::Rng::random_range(0..max)`
/// on the thread-local generator). Which number comes back depends on chance.
#[verifier::external_body]
fn random_below(max: u32) -> (r: u32)
    requires
        max > 0,
    ensures
        r < max,
{
    rand::rng().random_range(0..max)
}

/// A one-time code: a random number below `10^length`, written in decimal
/// and padded with zeros to `length` digits.
fn generate_otp(length: usize) -> (code: String)
    requires
        length <= 9,
    ensures
        exists|n: nat| n < pow(10, length as nat) && code@ == zero_padded(n, length as nat),
        length >= 1 ==> code@.len() == length,
        all_digits(code@),
{
    let mut max: u32 = 1;
    let mut i: usize = 0;
    proof {
        reveal(pow);
    }
    while i < length
        invariant
            i <= length <= 9,
            max as int == pow(10, i as nat),
            1 <= max <= 1_000_000_000,
        decreases length - i,
    {
        proof {
            reveal(pow);
            assert(pow(10, (i + 1) as nat) == 10 * pow(10, i as nat));
            if i < 9 {
                assert(pow(10, i as nat) <= 100_000_000) by {
                    lemma_pow10_bound(i as nat);
                }
            }
        }
        max = max * 10;
        i = i + 1;
    }
    let n: u32 = random_below(max);
    let code = zero_padded_string(n as u64, length);
    proof {
        if length >= 1 {
            lemma_decimal_len_bound(n as nat, length as nat);
        }
        lemma_zero_padded_digits(n as nat, length as nat);
        assert(n < pow(10, length as nat) && code@ == zero_padded(n as nat, length as nat));
    }
    code
}

proof fn lemma_pow10_bound(i: nat)
    requires
        i < 9,
    ensures
        pow(10, i) <= 100_000_000,
{
    reveal_with_fuel(pow, 9);
    vstd::arithmetic::power::lemma_pow_increases(10, i, 8);
}

/// The decisions of registration, e-mail verification and login. The
/// storage and token signing they call for are carried out by the caller,
/// who hands each answer back.
pub struct AuthService {
    pub settings: Settings,
}

/// Where a registration stands.
#[derive(Debug)]
pub enum RegisterState {
    /// Looking up the user by the request's e-mail.
    LookingUpUser(RegisterDTO),
    /// Looking up the registration code of an unverified user.
    LookingUpCode(User),
    /// Deleting the expired registration codes of an unverified user.
    DeletingCodes(User),
    /// Storing a new user.
    CreatingUser,
    /// Storing the code to send to the user.
    StoringCode(User, String),
    Finished,
}

impl RegisterState {
    /// The answers this state can take.
    pub open spec fn expects(self, reply: Reply) -> bool {
        match self {
            RegisterState::LookingUpUser(_) => reply is User || reply is Failed,
            RegisterState::LookingUpCode(_) => reply is Code || reply is Failed,
            RegisterState::DeletingCodes(_) => reply is Deleted || reply is Failed,
            RegisterState::CreatingUser => reply is SavedUser || reply is Failed,
            RegisterState::StoringCode(_, _) => reply is SavedCode || reply is Failed,
            RegisterState::Finished => false,
        }
    }
    /// Whether this state can take `reply`, as [`RegisterState::expects`] says.
    pub fn accepts(&self, reply: &Reply) -> (b: bool)
        ensures
            b == self.expects(*reply),
    {
        let failed = match reply { Reply::Failed(_) => true, _ => false };
        match self {
            RegisterState::LookingUpUser(_) => failed || match reply { Reply::User(_) => true, _ => false },
            RegisterState::LookingUpCode(_) => failed || match reply { Reply::Code(_) => true, _ => false },
            RegisterState::DeletingCodes(_) => failed || match reply { Reply::Deleted => true, _ => false },
            RegisterState::CreatingUser => failed || match reply { Reply::SavedUser(_) => true, _ => false },
            RegisterState::StoringCode(_, _) => failed || match reply { Reply::SavedCode(_) => true, _ => false },
            RegisterState::Finished => false,
        }
    }

    /// How many requests, at most, the registration still makes.
    pub open spec fn rank(self) -> nat {
        match self {
            RegisterState::LookingUpUser(_) => 4,
            RegisterState::LookingUpCode(_) => 3,
            RegisterState::DeletingCodes(_) => 2,
            RegisterState::CreatingUser => 2,
            RegisterState::StoringCode(_, _) => 1,
            RegisterState::Finished => 0,
        }
    }
}

/// Where an e-mail verification stands.
#[derive(Debug)]
pub enum VerifyEmailState {
    /// Looking up the user.
    LookingUpUser { user_id: uuid::Uuid, code: String },
    /// Looking up the user's registration code.
    LookingUpCode { user: User, user_id: uuid::Uuid, code: String },
    /// Storing the user as verified; the used code is deleted next.
    UpdatingUser { code_id: uuid::Uuid },
    /// Deleting the used code; the verified user is the result.
    DeletingCode { user: User },
    Finished,
}

impl VerifyEmailState {
    /// The answers this state can take.
    pub open spec fn expects(self, reply: Reply) -> bool {
        match self {
            VerifyEmailState::LookingUpUser { .. } => reply is User || reply is Failed,
            VerifyEmailState::LookingUpCode { .. } => reply is Code || reply is Failed,
            VerifyEmailState::UpdatingUser { .. } => reply is SavedUser || reply is Failed,
            VerifyEmailState::DeletingCode { .. } => reply is Deleted || reply is Failed,
            VerifyEmailState::Finished => false,
        }
    }
    /// Whether this state can take `reply`, as [`VerifyEmailState::expects`] says.
    pub fn accepts(&self, reply: &Reply) -> (b: bool)
        ensures
            b == self.expects(*reply),
    {
        let failed = match reply { Reply::Failed(_) => true, _ => false };
        match self {
            VerifyEmailState::LookingUpUser { .. } => failed || match reply { Reply::User(_) => true, _ => false },
            VerifyEmailState::LookingUpCode { .. } => failed || match reply { Reply::Code(_) => true, _ => false },
            VerifyEmailState::UpdatingUser { .. } => failed || match reply { Reply::SavedUser(_) => true, _ => false },
            VerifyEmailState::DeletingCode { .. } => failed || match reply { Reply::Deleted => true, _ => false },
            VerifyEmailState::Finished => false,
        }
    }

    /// How many requests, at most, the verification still makes.
    pub open spec fn rank(self) -> nat {
        match self {
            VerifyEmailState::LookingUpUser { .. } => 4,
            VerifyEmailState::LookingUpCode { .. } => 3,
            VerifyEmailState::UpdatingUser { .. } => 2,
            VerifyEmailState::DeletingCode { .. } => 1,
            VerifyEmailState::Finished => 0,
        }
    }
}

/// Where a login stands.
#[derive(Debug)]
pub enum LoginState {
    /// Looking up the user by e-mail; the password to check.
    LookingUpUser { password: String },
    /// Signing the access token of the user.
    SigningAccess { user_id: uuid::Uuid },
    /// Signing the refresh token of the user; the access token is ready.
    SigningRefresh { user_id: uuid::Uuid, access_token: String },
    Finished,
}

impl LoginState {
    /// The answers this state can take.
    pub open spec fn expects(self, reply: Reply) -> bool {
        match self {
            LoginState::LookingUpUser { .. } => reply is User || reply is Failed,
            LoginState::SigningAccess { .. } => reply is Signed || reply is Failed,
            LoginState::SigningRefresh { .. } => reply is Signed || reply is Failed,
            LoginState::Finished => false,
        }
    }
    /// Whether this state can take `reply`, as [`LoginState::expects`] says.
    pub fn accepts(&self, reply: &Reply) -> (b: bool)
        ensures
            b == self.expects(*reply),
    {
        let failed = match reply { Reply::Failed(_) => true, _ => false };
        match self {
            LoginState::LookingUpUser { .. } => failed || match reply { Reply::User(_) => true, _ => false },
            LoginState::SigningAccess { .. } => failed || match reply { Reply::Signed(_) => true, _ => false },
            LoginState::SigningRefresh { .. } => failed || match reply { Reply::Signed(_) => true, _ => false },
            LoginState::Finished => false,
        }
    }

    /// How many requests, at most, the login still makes.
    pub open spec fn rank(self) -> nat {
        match self {
            LoginState::LookingUpUser { .. } => 3,
            LoginState::SigningAccess { .. } => 2,
            LoginState::SigningRefresh { .. } => 1,
            LoginState::Finished => 0,
        }
    }
}

/// Where a lookup of a user by identifier stands.
#[derive(Debug)]
pub enum GetByIdState {
    LookingUpUser,
    Finished,
}

impl GetByIdState {
    /// The answers this state can take.
    pub open spec fn expects(self, reply: Reply) -> bool {
        match self {
            GetByIdState::LookingUpUser => reply is User || reply is Failed,
            GetByIdState::Finished => false,
        }
    }
    /// Whether this state can take `reply`, as [`GetByIdState::expects`] says.
    pub fn accepts(&self, reply: &Reply) -> (b: bool)
        ensures
            b == self.expects(*reply),
    {
        let failed = match reply { Reply::Failed(_) => true, _ => false };
        match self {
            GetByIdState::LookingUpUser => failed || match reply { Reply::User(_) => true, _ => false },
            GetByIdState::Finished => false,
        }
    }

}

impl AuthService {
    /// A service deciding under the given settings.
    pub fn new(settings: Settings) -> (s: AuthService)
        ensures
            s.settings == settings,
    {
        AuthService { settings }
    }

    // ----- registration -----

    /// The step of a registration that issues a code to `user` at `now`:
    /// a fresh six-digit code is kept to be sent, and its hash is stored,
    /// valid for the configured number of minutes.
    pub open spec fn issues_code(&self, user: User, now: Timestamp, next: RegisterState, step: Step<RegisterResult>) -> bool {
        match (next, step) {
            (RegisterState::StoringCode(u, code), Step::Perform(Request::CreateCode(c))) => {
                &&& u == user
                &&& code@.len() == 6
                &&& all_digits(code@)
                &&& c@.code_hash == code_hash_of(code@)
                &&& c@.action == EmailCodeAction::Register
                &&& c@.user_id == user.base.id
                &&& c@.base.created_at == now
                &&& c@.base.updated_at == now
                &&& Some(c@.expires_at) == now.plus_minutes(self.settings.email.code_expire_min as int)
            },
            _ => false,
        }
    }

    /// The answer makes the registration issue a code (and so read the clock
    /// for its expiry).
    pub open spec fn register_issues_code(state: RegisterState, reply: Reply) -> bool {
        match (state, reply) {
            (RegisterState::LookingUpCode(_), Reply::Code(None)) => true,
            (RegisterState::DeletingCodes(_), Reply::Deleted) => true,
            (RegisterState::CreatingUser, Reply::SavedUser(_)) => true,
            _ => false,
        }
    }

    /// What a registration does on an answer, at `now`.
    pub open spec fn register_next(&self, state: RegisterState, reply: Reply, now: Timestamp, next: RegisterState, step: Step<RegisterResult>) -> bool {
        match (state, reply) {
            (RegisterState::Finished, _) => false,
            (_, Reply::Failed(e)) => next is Finished && step == Step::<RegisterResult>::Finish(Err(AuthError::Database(e))),
            (RegisterState::LookingUpUser(_), Reply::User(Some(u))) => if u.verified {
                next is Finished && step == Step::<RegisterResult>::Finish(Err(AuthError::UserAlreadyExists))
            } else {
                next == RegisterState::LookingUpCode(u)
                    && step == Step::<RegisterResult>::Perform(Request::CodeByUserAction(u.base.id, EmailCodeAction::Register))
            },
            (RegisterState::LookingUpUser(req), Reply::User(None)) => match step {
                Step::Perform(Request::CreateUser(u)) => {
                    &&& next is CreatingUser
                    &&& u.email == req.email
                    &&& u.name == req.name
                    &&& !u.verified
                    &&& u.base.created_at == now
                    &&& u.base.updated_at == now
                    &&& bcrypt_verdict(req.password@, u.password_hash@) == Ok::<bool, bcrypt::BcryptError>(true)
                    &&& u.password_hash@.len() == 60
                    &&& u.password_hash@.take(7) == "$2b$12$"@
                },
                Step::Finish(Err(AuthError::BcryptError(_))) => next is Finished,
                _ => false,
            },
            (RegisterState::LookingUpCode(u), Reply::Code(Some(c))) => if !c.expired_spec(now) {
                next is Finished && step == Step::<RegisterResult>::Finish(Err(AuthError::AlreadySent(u)))
            } else {
                next == RegisterState::DeletingCodes(u)
                    && step == Step::<RegisterResult>::Perform(Request::DeleteCodesByUserAction(u.base.id, EmailCodeAction::Register))
            },
            (RegisterState::LookingUpCode(u), Reply::Code(None)) => self.issues_code(u, now, next, step),
            (RegisterState::DeletingCodes(u), Reply::Deleted) => self.issues_code(u, now, next, step),
            (RegisterState::CreatingUser, Reply::SavedUser(u)) => self.issues_code(u, now, next, step),
            (RegisterState::StoringCode(u, code), Reply::SavedCode(_)) =>
                next is Finished && step == Step::<RegisterResult>::Finish(Ok(RegisterResult { user: u, code })),
            _ => false,
        }
    }

    /// Starts a registration: the user is looked up by e-mail first.
    pub fn register_start(request: RegisterDTO) -> (res: (RegisterState, Step<RegisterResult>))
        ensures
            res.1 == Step::<RegisterResult>::Perform(Request::UserByEmail(request.email)),
            res.0 == RegisterState::LookingUpUser(request),
    {
        let email = request.email.clone();
        (RegisterState::LookingUpUser(request), Step::Perform(Request::UserByEmail(email)))
    }

    /// Issues a registration code to `user` at `now`.
    fn issue_code(&self, user: User, now: Timestamp) -> (res: (RegisterState, Step<RegisterResult>))
        requires
            now.wf(),
            now.plus_minutes(self.settings.email.code_expire_min as int) is Some,
        ensures
            self.issues_code(user, now, res.0, res.1),
    {
        let code_plain = generate_otp(6);
        let email_code = EmailCode::new_at(
            code_plain.as_str(),
            EmailCodeAction::Register,
            user.base.id,
            self.settings.email.code_expire_min,
            now,
        );
        (RegisterState::StoringCode(user, code_plain), Step::Perform(Request::CreateCode(email_code)))
    }

    /// One step of a registration: the answer to the last request, read at
    /// `now`. An existing verified user is refused; an unverified one whose
    /// code has not expired is told a code was already sent; otherwise the
    /// user is created if new, stale codes are deleted, and a new code is
    /// stored and returned with the user.
    pub fn register_step(&self, state: RegisterState, reply: Reply, now: Timestamp) -> (res: (RegisterState, Step<RegisterResult>))
        requires
            state.expects(reply),
            now.wf(),
            AuthService::register_issues_code(state, reply) ==> now.plus_minutes(self.settings.email.code_expire_min as int) is Some,
        ensures
            self.register_next(state, reply, now, res.0, res.1),
    {
        match state {
            RegisterState::LookingUpUser(req) => match reply {
                Reply::Failed(e) => (RegisterState::Finished, Step::Finish(Err(AuthError::Database(e)))),
                Reply::User(Some(u)) => {
                    if u.verified {
                        (RegisterState::Finished, Step::Finish(Err(AuthError::UserAlreadyExists)))
                    } else {
                        let id = u.base.id;
                        (RegisterState::LookingUpCode(u), Step::Perform(Request::CodeByUserAction(id, EmailCodeAction::Register)))
                    }
                },
                Reply::User(None) => {
                    match User::new_at(req.email, req.password.as_str(), req.name, false, now) {
                        Ok(u) => (RegisterState::CreatingUser, Step::Perform(Request::CreateUser(u))),
                        Err(e) => (RegisterState::Finished, Step::Finish(Err(AuthError::BcryptError(e)))),
                    }
                },
                _ => (RegisterState::Finished, Step::Finish(Err(AuthError::NotFound))),
            },
            RegisterState::LookingUpCode(u) => match reply {
                Reply::Failed(e) => (RegisterState::Finished, Step::Finish(Err(AuthError::Database(e)))),
                Reply::Code(Some(c)) => {
                    if !c.expired_at(now) {
                        (RegisterState::Finished, Step::Finish(Err(AuthError::AlreadySent(u))))
                    } else {
                        let id = u.base.id;
                        (RegisterState::DeletingCodes(u), Step::Perform(Request::DeleteCodesByUserAction(id, EmailCodeAction::Register)))
                    }
                },
                Reply::Code(None) => self.issue_code(u, now),
                _ => (RegisterState::Finished, Step::Finish(Err(AuthError::NotFound))),
            },
            RegisterState::DeletingCodes(u) => match reply {
                Reply::Failed(e) => (RegisterState::Finished, Step::Finish(Err(AuthError::Database(e)))),
                _ => self.issue_code(u, now),
            },
            RegisterState::CreatingUser => match reply {
                Reply::Failed(e) => (RegisterState::Finished, Step::Finish(Err(AuthError::Database(e)))),
                Reply::SavedUser(u) => self.issue_code(u, now),
                _ => (RegisterState::Finished, Step::Finish(Err(AuthError::NotFound))),
            },
            RegisterState::StoringCode(u, code) => match reply {
                Reply::Failed(e) => (RegisterState::Finished, Step::Finish(Err(AuthError::Database(e)))),
                _ => (RegisterState::Finished, Step::Finish(Ok(RegisterResult { user: u, code }))),
            },
            RegisterState::Finished => (RegisterState::Finished, Step::Finish(Err(AuthError::NotFound))),
        }
    }

    /// The step issues a code whose expiry, `code_expire_min` minutes after
    /// `now`, lies beyond the range of a UTC date-time.
    pub open spec fn register_refuses_at(&self, state: RegisterState, reply: Reply, now: Timestamp) -> bool {
        &&& AuthService::register_issues_code(state, reply)
        &&& now.plus_minutes(self.settings.email.code_expire_min as int) is None
    }

    /// One step of a registration at `now`, or `None` when the step would
    /// issue a code whose expiry has no instant to be stored at.
    pub fn register_step_at(&self, state: RegisterState, reply: Reply, now: Timestamp) -> (res: Option<(RegisterState, Step<RegisterResult>)>)
        requires
            state.expects(reply),
            now.wf(),
        ensures
            res is None <==> self.register_refuses_at(state, reply, now),
            res matches Some(r) ==> self.register_next(state, reply, now, r.0, r.1),
    {
        if AuthService::issues_code_on(&state, &reply)
            && now.checked_add_minutes(self.settings.email.code_expire_min as i64).is_none() {
            return None;
        }
        Some(self.register_step(state, reply, now))
    }

    /// Reads the clock and takes one step of a registration at that instant,
    /// which is returned in either outcome. The step is `None` exactly when it
    /// would issue a code whose expiry lies beyond the range of a UTC
    /// date-time at the instant read: there is no such instant to store.
    pub fn register_step_now(&self, state: RegisterState, reply: Reply) -> (res: (Option<(RegisterState, Step<RegisterResult>)>, Timestamp))
        requires
            state.expects(reply),
        ensures
            res.1.wf(),
            res.1.secs >= 0,
            res.0 is None <==> self.register_refuses_at(state, reply, res.1),
            res.0 matches Some(r) ==> self.register_next(state, reply, res.1, r.0, r.1),
    {
        let now = Timestamp::now();
        (self.register_step_at(state, reply, now), now)
    }

    /// Whether the answer makes the registration issue a code.
    fn issues_code_on(state: &RegisterState, reply: &Reply) -> (b: bool)
        ensures
            b == AuthService::register_issues_code(*state, *reply),
    {
        match (state, reply) {
            (RegisterState::LookingUpCode(_), Reply::Code(None)) => true,
            (RegisterState::DeletingCodes(_), Reply::Deleted) => true,
            (RegisterState::CreatingUser, Reply::SavedUser(_)) => true,
            _ => false,
        }
    }

    // ----- e-mail verification -----

    /// What an e-mail verification does on an answer, at `now`.
    pub open spec fn verify_email_next(state: VerifyEmailState, reply: Reply, now: Timestamp, next: VerifyEmailState, step: Step<User>) -> bool {
        match (state, reply) {
            (VerifyEmailState::Finished, _) => false,
            (_, Reply::Failed(e)) => next is Finished && step == Step::<User>::Finish(Err(AuthError::Database(e))),
            (VerifyEmailState::LookingUpUser { user_id, code }, Reply::User(found)) => match found {
                None => next is Finished && step == Step::<User>::Finish(Err(AuthError::NotFound)),
                Some(u) => if u.verified {
                    next is Finished && step == Step::<User>::Finish(Ok(u))
                } else {
                    next == (VerifyEmailState::LookingUpCode { user: u, user_id, code })
                        && step == Step::<User>::Perform(Request::CodeByUserAction(user_id, EmailCodeAction::Register))
                },
            },
            (VerifyEmailState::LookingUpCode { user, user_id, code }, Reply::Code(found)) => match found {
                None => next is Finished && step == Step::<User>::Finish(Err(AuthError::NotFound)),
                Some(c) => if !c.accepts(code@, now) {
                    next is Finished && step == Step::<User>::Finish(Err(AuthError::InvalidCode))
                } else {
                    next == (VerifyEmailState::UpdatingUser { code_id: c@.base.id })
                        && step == Step::<User>::Perform(Request::UpdateUser(User { verified: true, ..user }))
                },
            },
            (VerifyEmailState::UpdatingUser { code_id }, Reply::SavedUser(u)) =>
                next == (VerifyEmailState::DeletingCode { user: u })
                    && step == Step::<User>::Perform(Request::DeleteCodeById(code_id)),
            (VerifyEmailState::DeletingCode { user }, Reply::Deleted) =>
                next is Finished && step == Step::<User>::Finish(Ok(user)),
            _ => false,
        }
    }

    /// Starts an e-mail verification: the user is looked up first.
    pub fn verify_email_start(user_id: uuid::Uuid, code: &str) -> (res: (VerifyEmailState, Step<User>))
        ensures
            res.0 matches VerifyEmailState::LookingUpUser { user_id: id, code: c } && id == user_id && c@ == code@,
            res.1 == Step::<User>::Perform(Request::UserById(user_id)),
    {
        (VerifyEmailState::LookingUpUser { user_id, code: String::from_str(code) }, Step::Perform(Request::UserById(user_id)))
    }

    /// One step of an e-mail verification: the answer to the last request,
    /// read at `now`. A verified user is returned as is; otherwise the
    /// registration code must match and be unexpired, and then the user is
    /// stored as verified and the code is deleted.
    pub fn verify_email_step(state: VerifyEmailState, reply: Reply, now: Timestamp) -> (res: (VerifyEmailState, Step<User>))
        requires
            state.expects(reply),
        ensures
            AuthService::verify_email_next(state, reply, now, res.0, res.1),
    {
        match state {
            VerifyEmailState::LookingUpUser { user_id, code } => match reply {
                Reply::Failed(e) => (VerifyEmailState::Finished, Step::Finish(Err(AuthError::Database(e)))),
                Reply::User(None) => (VerifyEmailState::Finished, Step::Finish(Err(AuthError::NotFound))),
                Reply::User(Some(u)) => {
                    if u.verified {
                        (VerifyEmailState::Finished, Step::Finish(Ok(u)))
                    } else {
                        (
                            VerifyEmailState::LookingUpCode { user: u, user_id, code },
                            Step::Perform(Request::CodeByUserAction(user_id, EmailCodeAction::Register)),
                        )
                    }
                },
                _ => (VerifyEmailState::Finished, Step::Finish(Err(AuthError::NotFound))),
            },
            VerifyEmailState::LookingUpCode { user, user_id, code } => match reply {
                Reply::Failed(e) => (VerifyEmailState::Finished, Step::Finish(Err(AuthError::Database(e)))),
                Reply::Code(None) => (VerifyEmailState::Finished, Step::Finish(Err(AuthError::NotFound))),
                Reply::Code(Some(c)) => {
                    if !c.verify_at(code.as_str(), now) {
                        (VerifyEmailState::Finished, Step::Finish(Err(AuthError::InvalidCode)))
                    } else {
                        let mut verified_user = user;
                        verified_user.verified = true;
                        (
                            VerifyEmailState::UpdatingUser { code_id: c.id() },
                            Step::Perform(Request::UpdateUser(verified_user)),
                        )
                    }
                },
                _ => (VerifyEmailState::Finished, Step::Finish(Err(AuthError::NotFound))),
            },
            VerifyEmailState::UpdatingUser { code_id } => match reply {
                Reply::Failed(e) => (VerifyEmailState::Finished, Step::Finish(Err(AuthError::Database(e)))),
                Reply::SavedUser(u) => (VerifyEmailState::DeletingCode { user: u }, Step::Perform(Request::DeleteCodeById(code_id))),
                _ => (VerifyEmailState::Finished, Step::Finish(Err(AuthError::NotFound))),
            },
            VerifyEmailState::DeletingCode { user } => match reply {
                Reply::Failed(e) => (VerifyEmailState::Finished, Step::Finish(Err(AuthError::Database(e)))),
                _ => (VerifyEmailState::Finished, Step::Finish(Ok(user))),
            },
            VerifyEmailState::Finished => (VerifyEmailState::Finished, Step::Finish(Err(AuthError::NotFound))),
        }
    }

    /// Reads the clock and takes one step of an e-mail verification at that
    /// instant, which is returned too.
    pub fn verify_email_step_now(state: VerifyEmailState, reply: Reply) -> (res: (VerifyEmailState, Step<User>, Timestamp))
        requires
            state.expects(reply),
        ensures
            res.2.wf(),
            AuthService::verify_email_next(state, reply, res.2, res.0, res.1),
    {
        let now = Timestamp::now();
        let (next, step) = AuthService::verify_email_step(state, reply, now);
        (next, step, now)
    }

    // ----- login -----

    /// The claims of a token of `user_id` that expires `minutes` after `now`.
    pub open spec fn claims_after(user_id: uuid::Uuid, now: Timestamp, minutes: int) -> Claims {
        Claims { user_id, exp: now.plus_minutes(minutes).unwrap().secs as usize }
    }

    /// The answer makes the login sign a token that expires some minutes
    /// from now, and which setting gives the minutes.
    pub open spec fn login_token_minutes(&self, state: LoginState, reply: Reply) -> Option<i64> {
        match (state, reply) {
            (LoginState::LookingUpUser { password }, Reply::User(Some(u))) =>
                if u.verified && bcrypt_verdict(password@, u.password_hash@) == Ok::<bool, bcrypt::BcryptError>(true) {
                    Some(self.settings.auth.access_expire_min)
                } else {
                    None
                },
            (LoginState::SigningAccess { .. }, Reply::Signed(_)) => Some(self.settings.auth.refresh_expire_min),
            _ => None,
        }
    }

    /// What a login does on an answer, at `now`.
    pub open spec fn login_next(&self, state: LoginState, reply: Reply, now: Timestamp, next: LoginState, step: Step<TokenResponse>) -> bool {
        match (state, reply) {
            (LoginState::Finished, _) => false,
            (LoginState::LookingUpUser { .. }, Reply::Failed(e)) =>
                next is Finished && step == Step::<TokenResponse>::Finish(Err(AuthError::Database(e))),
            (LoginState::LookingUpUser { password }, Reply::User(found)) => match found {
                None => next is Finished && step == Step::<TokenResponse>::Finish(Err(AuthError::InvalidCredentials)),
                Some(u) => if !u.verified {
                    next is Finished && step == Step::<TokenResponse>::Finish(Err(AuthError::NotVerified))
                } else {
                    match bcrypt_verdict(password@, u.password_hash@) {
                        Err(e) => next is Finished && step == Step::<TokenResponse>::Finish(Err(AuthError::BcryptError(e))),
                        Ok(false) => next is Finished && step == Step::<TokenResponse>::Finish(Err(AuthError::InvalidCredentials)),
                        Ok(true) => {
                            &&& next == (LoginState::SigningAccess { user_id: u.base.id })
                            &&& step == Step::<TokenResponse>::Perform(Request::SignToken(
                                AuthService::claims_after(u.base.id, now, self.settings.auth.access_expire_min as int),
                                self.settings.auth.secret_key))
                        },
                    }
                },
            },
            (_, Reply::Failed(e)) =>
                next is Finished && step == Step::<TokenResponse>::Finish(Err(AuthError::JWTError(e))),
            (LoginState::SigningAccess { user_id }, Reply::Signed(access)) => {
                &&& next == (LoginState::SigningRefresh { user_id, access_token: access })
                &&& step == Step::<TokenResponse>::Perform(Request::SignToken(
                    AuthService::claims_after(user_id, now, self.settings.auth.refresh_expire_min as int),
                    self.settings.auth.secret_key))
            },
            (LoginState::SigningRefresh { access_token, .. }, Reply::Signed(refresh)) => {
                &&& next is Finished
                &&& step matches Step::Finish(Ok(t))
                &&& t.access_token == access_token
                &&& t.refresh_token == refresh
                &&& t.token_type@ == "Bearer"@
                &&& t.expires_in == self.settings.auth.access_expire_min * 60
            },
            _ => false,
        }
    }

    /// Starts a login: the user is looked up by e-mail first.
    pub fn login_start(email: &str, password: &str) -> (res: (LoginState, Step<TokenResponse>))
        ensures
            res.0 matches LoginState::LookingUpUser { password: p } && p@ == password@,
            res.1 matches Step::Perform(Request::UserByEmail(e)) && e@ == email@,
    {
        (
            LoginState::LookingUpUser { password: String::from_str(password) },
            Step::Perform(Request::UserByEmail(String::from_str(email))),
        )
    }

    /// The claims of a token of `user_id` that expires `minutes` after `now`.
    fn claims_for(user_id: uuid::Uuid, now: Timestamp, minutes: i64) -> (c: Claims)
        requires
            now.wf(),
            now.plus_minutes(minutes as int) is Some,
        ensures
            c == AuthService::claims_after(user_id, now, minutes as int),
    {
        let exp = match now.checked_add_minutes(minutes) {
            Some(t) => t,
            None => now,
        };
        Claims { user_id, exp: exp.secs as usize }
    }

    /// The step would sign a token whose expiry the settings put out of
    /// range at `now` (after a verified user's password matched, or once the
    /// access token is ready), or would report an access lifetime in seconds
    /// that does not fit a time delta.
    pub open spec fn login_refuses_at(&self, state: LoginState, reply: Reply, now: Timestamp) -> bool {
        ||| (self.login_token_minutes(state, reply) matches Some(m) && now.plus_minutes(m as int) is None)
        ||| (state is SigningRefresh && reply is Signed
            && !crate::time::minutes_delta_ok(self.settings.auth.access_expire_min as int))
    }

    /// One step of a login at `now`, or `None` when the step would sign a
    /// token whose expiry has no instant in the range of a UTC date-time (the
    /// password is checked first: a wrong password is refused as usual).
    pub fn login_step_at(&self, state: LoginState, reply: Reply, now: Timestamp) -> (res: Option<(LoginState, Step<TokenResponse>)>)
        requires
            state.expects(reply),
            now.wf(),
        ensures
            res is None <==> self.login_refuses_at(state, reply, now),
            res matches Some(r) ==> self.login_next(state, reply, now, r.0, r.1),
    {
        match state {
            LoginState::LookingUpUser { password } => match reply {
                Reply::Failed(e) => Some((LoginState::Finished, Step::Finish(Err(AuthError::Database(e))))),
                Reply::User(None) => Some((LoginState::Finished, Step::Finish(Err(AuthError::InvalidCredentials)))),
                Reply::User(Some(u)) => {
                    if !u.verified {
                        return Some((LoginState::Finished, Step::Finish(Err(AuthError::NotVerified))));
                    }
                    match verify_password(password.as_str(), u.password_hash.as_str()) {
                        Ok(true) => {
                            if now.checked_add_minutes(self.settings.auth.access_expire_min).is_none() {
                                return None;
                            }
                            let claims = AuthService::claims_for(u.base.id, now, self.settings.auth.access_expire_min);
                            Some((LoginState::SigningAccess { user_id: u.base.id }, Step::Perform(Request::SignToken(claims, self.settings.auth.secret_key.clone()))))
                        },
                        Ok(false) => Some((LoginState::Finished, Step::Finish(Err(AuthError::InvalidCredentials)))),
                        Err(e) => Some((LoginState::Finished, Step::Finish(Err(AuthError::BcryptError(e))))),
                    }
                },
                _ => Some((LoginState::Finished, Step::Finish(Err(AuthError::NotFound)))),
            },
            LoginState::SigningAccess { user_id } => match reply {
                Reply::Failed(e) => Some((LoginState::Finished, Step::Finish(Err(AuthError::JWTError(e))))),
                Reply::Signed(access) => {
                    if now.checked_add_minutes(self.settings.auth.refresh_expire_min).is_none() {
                        return None;
                    }
                    let claims = AuthService::claims_for(user_id, now, self.settings.auth.refresh_expire_min);
                    Some((LoginState::SigningRefresh { user_id, access_token: access }, Step::Perform(Request::SignToken(claims, self.settings.auth.secret_key.clone()))))
                },
                _ => Some((LoginState::Finished, Step::Finish(Err(AuthError::NotFound)))),
            },
            LoginState::SigningRefresh { user_id, access_token } => match reply {
                Reply::Failed(e) => Some((LoginState::Finished, Step::Finish(Err(AuthError::JWTError(e))))),
                Reply::Signed(refresh) => {
                    if !crate::time::minutes_delta_fits(self.settings.auth.access_expire_min) {
                        return None;
                    }
                    let tokens = TokenResponse {
                        access_token,
                        refresh_token: refresh,
                        token_type: String::from_str("Bearer"),
                        expires_in: self.settings.auth.access_expire_min * 60,
                    };
                    Some((LoginState::Finished, Step::Finish(Ok(tokens))))
                },
                _ => Some((LoginState::Finished, Step::Finish(Err(AuthError::NotFound)))),
            },
            LoginState::Finished => Some((LoginState::Finished, Step::Finish(Err(AuthError::NotFound)))),
        }
    }

    /// One step of a login: the answer to the last request, read at `now`.
    /// An unknown e-mail or a wrong password is refused alike, an unverified
    /// user is refused; then an access and a refresh token are signed in turn.
    pub fn login_step(&self, state: LoginState, reply: Reply, now: Timestamp) -> (res: (LoginState, Step<TokenResponse>))
        requires
            state.expects(reply),
            now.wf(),
            self.login_token_minutes(state, reply) matches Some(m) ==> now.plus_minutes(m as int) is Some,
            state is SigningRefresh && reply is Signed ==> crate::time::minutes_delta_ok(self.settings.auth.access_expire_min as int),
        ensures
            self.login_next(state, reply, now, res.0, res.1),
    {
        match self.login_step_at(state, reply, now) {
            Some(r) => r,
            None => {
                proof {
                    assert(false);
                }
                (LoginState::Finished, Step::Finish(Err(AuthError::NotFound)))
            },
        }
    }

    /// Reads the clock and takes one step of a login at that instant, which is
    /// returned in either outcome. The step is `None` exactly when it would
    /// sign a token whose expiry the settings put out of range at the instant
    /// read: there is no such instant to sign.
    pub fn login_step_now(&self, state: LoginState, reply: Reply) -> (res: (Option<(LoginState, Step<TokenResponse>)>, Timestamp))
        requires
            state.expects(reply),
        ensures
            res.1.wf(),
            res.1.secs >= 0,
            res.0 is None <==> self.login_refuses_at(state, reply, res.1),
            res.0 matches Some(r) ==> self.login_next(state, reply, res.1, r.0, r.1),
    {
        let now = Timestamp::now();
        (self.login_step_at(state, reply, now), now)
    }

    // ----- lookup by identifier -----

    /// Starts a lookup of a user by identifier.
    pub fn get_by_id_start(id: uuid::Uuid) -> (res: (GetByIdState, Step<Option<User>>))
        ensures
            res.0 is LookingUpUser,
            res.1 == Step::<Option<User>>::Perform(Request::UserById(id)),
    {
        (GetByIdState::LookingUpUser, Step::Perform(Request::UserById(id)))
    }

    /// The lookup ends with what was found, or with the storage failure.
    pub fn get_by_id_step(state: GetByIdState, reply: Reply) -> (res: (GetByIdState, Step<Option<User>>))
        requires
            state.expects(reply),
        ensures
            res.0 is Finished,
            match reply {
                Reply::User(found) => res.1 == Step::<Option<User>>::Finish(Ok(found)),
                Reply::Failed(e) => res.1 == Step::<Option<User>>::Finish(Err(AuthError::Database(e))),
                _ => false,
            },
    {
        match reply {
            Reply::User(found) => (GetByIdState::Finished, Step::Finish(Ok(found))),
            Reply::Failed(e) => (GetByIdState::Finished, Step::Finish(Err(AuthError::Database(e)))),
            _ => (GetByIdState::Finished, Step::Finish(Err(AuthError::NotFound))),
        }
    }
}

// ----- laws -----

/// Every step of a registration brings it closer to its end, ends it exactly
/// when it finishes, and leaves it expecting exactly the kind of answer the
/// request it makes calls for: at most four requests are made.
pub proof fn lemma_register_progress(
    service: AuthService,
    state: RegisterState,
    reply: Reply,
    now: Timestamp,
    next: RegisterState,
    step: Step<RegisterResult>,
)
    requires
        service.register_next(state, reply, now, next, step),
    ensures
        next.rank() < state.rank(),
        step is Finish <==> next is Finished,
        step.hands_over(|r: Reply| next.expects(r)),
{
}

/// Every step of an e-mail verification brings it closer to its end, ends
/// it exactly when it finishes, and leaves it expecting the answer its
/// request calls for: at most four requests are made.
pub proof fn lemma_verify_email_progress(
    state: VerifyEmailState,
    reply: Reply,
    now: Timestamp,
    next: VerifyEmailState,
    step: Step<User>,
)
    requires
        AuthService::verify_email_next(state, reply, now, next, step),
    ensures
        next.rank() < state.rank(),
        step is Finish <==> next is Finished,
        step.hands_over(|r: Reply| next.expects(r)),
{
}

/// Every step of a login brings it closer to its end, ends it exactly when
/// it finishes, and leaves it expecting the answer its request calls for:
/// at most three requests are made.
pub proof fn lemma_login_progress(
    service: AuthService,
    state: LoginState,
    reply: Reply,
    now: Timestamp,
    next: LoginState,
    step: Step<TokenResponse>,
)
    requires
        service.login_next(state, reply, now, next, step),
    ensures
        next.rank() < state.rank(),
        step is Finish <==> next is Finished,
        step.hands_over(|r: Reply| next.expects(r)),
{
}

/// The code issued at registration, once stored, verifies the user's e-mail
/// when it is entered before it expires, and is refused as invalid from the
/// instant it expires.
pub proof fn lemma_issued_code_verifies_until_expiry(
    service: AuthService,
    registering: RegisterState,
    answer: Reply,
    issued_at: Timestamp,
    user: User,
    sent: String,
    stored: EmailCode,
    unverified: User,
    user_id: uuid::Uuid,
    entered: String,
    now: Timestamp,
    next: VerifyEmailState,
    step: Step<User>,
)
    requires
        service.register_next(
            registering, answer, issued_at,
            RegisterState::StoringCode(user, sent), Step::Perform(Request::CreateCode(stored)),
        ),
        entered@ == sent@,
        AuthService::verify_email_next(
            VerifyEmailState::LookingUpCode { user: unverified, user_id, code: entered },
            Reply::Code(Some(stored)), now, next, step,
        ),
    ensures
        now.before(stored@.expires_at) ==> {
            &&& next == (VerifyEmailState::UpdatingUser { code_id: stored@.base.id })
            &&& step == Step::<User>::Perform(Request::UpdateUser(User { verified: true, ..unverified }))
        },
        !now.before(stored@.expires_at) ==> step == Step::<User>::Finish(Err(AuthError::InvalidCode)),
        stored@.expires_at == issued_at.plus_minutes(service.settings.email.code_expire_min as int).unwrap(),
{
}

/// The code issued at registration passes the length check of an e-mail
/// verification request (six decimal digits), and what is stored for it is
/// its hash, filed under the user and the registration action.
pub proof fn lemma_issued_code_is_six_digits(
    service: AuthService,
    registering: RegisterState,
    answer: Reply,
    issued_at: Timestamp,
    user: User,
    sent: String,
    stored: EmailCode,
)
    requires
        service.register_next(
            registering, answer, issued_at,
            RegisterState::StoringCode(user, sent), Step::Perform(Request::CreateCode(stored)),
        ),
    ensures
        sent@.len() == 6,
        all_digits(sent@),
        stored@.code_hash == code_hash_of(sent@),
        stored@.user_id == user.base.id,
        stored@.action == EmailCodeAction::Register,
{
}

/// A user created at registration, once stored as verified, logs in with
/// the password it registered with: the access token is signed next.
pub proof fn lemma_registered_password_logs_in(
    service: AuthService,
    request: RegisterDTO,
    registered_at: Timestamp,
    created: User,
    stored: User,
    password: String,
    now: Timestamp,
    next: LoginState,
    step: Step<TokenResponse>,
)
    requires
        service.register_next(
            RegisterState::LookingUpUser(request), Reply::User(None), registered_at,
            RegisterState::CreatingUser, Step::Perform(Request::CreateUser(created)),
        ),
        stored.password_hash@ == created.password_hash@,
        stored.verified,
        password@ == request.password@,
        service.login_next(LoginState::LookingUpUser { password }, Reply::User(Some(stored)), now, next, step),
    ensures
        next == (LoginState::SigningAccess { user_id: stored.base.id }),
        step == Step::<TokenResponse>::Perform(Request::SignToken(
            AuthService::claims_after(stored.base.id, now, service.settings.auth.access_expire_min as int),
            service.settings.auth.secret_key)),
{
}

/// A login is refused alike whether the e-mail is unknown or the password
/// does not match a verified user's hash.
pub proof fn lemma_login_refusals_alike(
    service: AuthService,
    password: String,
    user: User,
    now: Timestamp,
    next_unknown: LoginState,
    step_unknown: Step<TokenResponse>,
    next_wrong: LoginState,
    step_wrong: Step<TokenResponse>,
)
    requires
        user.verified,
        bcrypt_verdict(password@, user.password_hash@) == Ok::<bool, bcrypt::BcryptError>(false),
        service.login_next(LoginState::LookingUpUser { password }, Reply::User(None), now, next_unknown, step_unknown),
        service.login_next(LoginState::LookingUpUser { password }, Reply::User(Some(user)), now, next_wrong, step_wrong),
    ensures
        step_unknown == step_wrong,
        step_unknown == Step::<TokenResponse>::Finish(Err(AuthError::InvalidCredentials)),
{
}

/// An access token expires the configured number of minutes after the
/// instant of login, which is what the reply's `expires_in` counts in seconds,
/// and it is signed with the configured secret key.
pub proof fn lemma_access_token_lifetime(
    service: AuthService,
    state: LoginState,
    reply: Reply,
    now: Timestamp,
    next: LoginState,
    claims: Claims,
    key: String,
)
    requires
        state is LookingUpUser,
        service.login_next(state, reply, now, next, Step::Perform(Request::SignToken(claims, key))),
        now.plus_minutes(service.settings.auth.access_expire_min as int) matches Some(t)
            && 0 <= t.secs <= usize::MAX,
    ensures
        claims.exp == now.secs + service.settings.auth.access_expire_min * 60,
        key == service.settings.auth.secret_key,
{
}

/// Registering again as a verified user is refused, and e-mail verification
/// of a verified user hands it back untouched, whatever code is entered.
pub proof fn lemma_verified_user_is_settled(
    service: AuthService,
    request: RegisterDTO,
    user: User,
    user_id: uuid::Uuid,
    code: String,
    now: Timestamp,
    next_register: RegisterState,
    step_register: Step<RegisterResult>,
    next_verify: VerifyEmailState,
    step_verify: Step<User>,
)
    requires
        user.verified,
        service.register_next(RegisterState::LookingUpUser(request), Reply::User(Some(user)), now, next_register, step_register),
        AuthService::verify_email_next(
            VerifyEmailState::LookingUpUser { user_id, code }, Reply::User(Some(user)), now, next_verify, step_verify),
    ensures
        step_register == Step::<RegisterResult>::Finish(Err(AuthError::UserAlreadyExists)),
        step_verify == Step::<User>::Finish(Ok(user)),
{
}

/// An unverified user who re-registers while a code is still valid is told
/// that a code was already sent, and no new code is issued.
pub proof fn lemma_pending_code_is_not_reissued(
    service: AuthService,
    user: User,
    code: EmailCode,
    now: Timestamp,
    next: RegisterState,
    step: Step<RegisterResult>,
)
    requires
        !code.expired_spec(now),
        service.register_next(RegisterState::LookingUpCode(user), Reply::Code(Some(code)), now, next, step),
    ensures
        step == Step::<RegisterResult>::Finish(Err(AuthError::AlreadySent(user))),
{
}

/// A registration that finds a user under the e-mail never creates another
/// one: it is refused, answered with the pending code, or reissues a code to
/// the user found.
pub proof fn lemma_existing_user_not_recreated(
    service: AuthService,
    request: RegisterDTO,
    found: User,
    now: Timestamp,
    next: RegisterState,
    step: Step<RegisterResult>,
)
    requires
        service.register_next(RegisterState::LookingUpUser(request), Reply::User(Some(found)), now, next, step),
    ensures
        !(step matches Step::Perform(Request::CreateUser(_))),
        next is LookingUpCode ==> next == RegisterState::LookingUpCode(found),
{
}

/// A login stores nothing: it looks the user up by e-mail, then only asks
/// for tokens to be signed.
pub proof fn lemma_login_writes_nothing(
    service: AuthService,
    state: LoginState,
    reply: Reply,
    now: Timestamp,
    next: LoginState,
    step: Step<TokenResponse>,
)
    requires
        service.login_next(state, reply, now, next, step),
    ensures
        step matches Step::Perform(r) ==> r is SignToken && !r.writes(),
{
}

/// The stored hash of a new user is not the password itself, unless the
/// password happens to have a hash's form (60 characters starting `$2b$12$`).
pub proof fn lemma_stored_hash_is_not_the_password(
    service: AuthService,
    request: RegisterDTO,
    now: Timestamp,
    created: User,
)
    requires
        service.register_next(
            RegisterState::LookingUpUser(request), Reply::User(None), now,
            RegisterState::CreatingUser, Step::Perform(Request::CreateUser(created)),
        ),
        !(request.password@.len() == 60 && request.password@.take(7) == "$2b$12$"@),
    ensures
        created.password_hash@ != request.password@,
{
}

/// Registering again as an unverified user who has no code creates no
/// second user: the code lookup comes first, then a fresh code is stored for
/// the user found, and the registration ends with that user and code. When
/// storing the code fails, the registration ends with the storage error and
/// asks for nothing to be undone.
pub proof fn lemma_reregistering_unverified_user_gets_fresh_code(
    service: AuthService,
    request: RegisterDTO,
    stored: User,
    now1: Timestamp,
    state1: RegisterState,
    step1: Step<RegisterResult>,
    now2: Timestamp,
    state2: RegisterState,
    step2: Step<RegisterResult>,
    saved: EmailCode,
    now3: Timestamp,
    state3: RegisterState,
    step3: Step<RegisterResult>,
    failure: String,
    state_failed: RegisterState,
    step_failed: Step<RegisterResult>,
)
    requires
        !stored.verified,
        service.register_next(RegisterState::LookingUpUser(request), Reply::User(Some(stored)), now1, state1, step1),
        service.register_next(state1, Reply::Code(None), now2, state2, step2),
        service.register_next(state2, Reply::SavedCode(saved), now3, state3, step3),
        service.register_next(state2, Reply::Failed(failure), now3, state_failed, step_failed),
    ensures
        step1 == Step::<RegisterResult>::Perform(Request::CodeByUserAction(stored.base.id, EmailCodeAction::Register)),
        step2 matches Step::Perform(Request::CreateCode(c)) && c@.user_id == stored.base.id,
        step3 matches Step::Finish(Ok(r)) && r.user == stored && r.code@.len() == 6,
        step_failed == Step::<RegisterResult>::Finish(Err(AuthError::Database(failure))),
{
}

/// The code issued at registration, entered before it expires, verifies the
/// user: the user is stored as verified, the code is deleted, and the
/// verified user (as storage gives it back) is the result. A later
/// verification of that user hands it back untouched, whatever code is
/// entered, and asks for nothing to be stored.
pub proof fn lemma_verification_round_trip(
    service: AuthService,
    registering: RegisterState,
    answer: Reply,
    issued_at: Timestamp,
    registered: User,
    sent: String,
    stored_code: EmailCode,
    user: User,
    entered: String,
    now: Timestamp,
    state1: VerifyEmailState,
    step1: Step<User>,
    state2: VerifyEmailState,
    step2: Step<User>,
    saved: User,
    state3: VerifyEmailState,
    step3: Step<User>,
    state4: VerifyEmailState,
    step4: Step<User>,
    other_code: String,
    later: Timestamp,
    state5: VerifyEmailState,
    step5: Step<User>,
)
    requires
        service.register_next(
            registering, answer, issued_at,
            RegisterState::StoringCode(registered, sent), Step::Perform(Request::CreateCode(stored_code)),
        ),
        !user.verified,
        entered@ == sent@,
        now.before(stored_code@.expires_at),
        AuthService::verify_email_next(
            VerifyEmailState::LookingUpUser { user_id: user.base.id, code: entered },
            Reply::User(Some(user)), now, state1, step1),
        AuthService::verify_email_next(state1, Reply::Code(Some(stored_code)), now, state2, step2),
        step2 matches Step::Perform(Request::UpdateUser(v)) && saved == v,
        AuthService::verify_email_next(state2, Reply::SavedUser(saved), now, state3, step3),
        AuthService::verify_email_next(state3, Reply::Deleted, now, state4, step4),
        AuthService::verify_email_next(
            VerifyEmailState::LookingUpUser { user_id: saved.base.id, code: other_code },
            Reply::User(Some(saved)), later, state5, step5),
    ensures
        step3 == Step::<User>::Perform(Request::DeleteCodeById(stored_code@.base.id)),
        step4 == Step::<User>::Finish(Ok(saved)),
        saved.verified,
        saved.base.id == user.base.id,
        step5 == Step::<User>::Finish(Ok(saved)),
{
}

/// Re-registering finds the user's code: when its expiry lies strictly before
/// `now`, the user's registration codes are deleted so a fresh one can be
/// issued; otherwise the registration ends telling a code was already sent.
pub proof fn lemma_found_code_expiry_decides(
    service: AuthService,
    user: User,
    code: EmailCode,
    now: Timestamp,
    next: RegisterState,
    step: Step<RegisterResult>,
)
    requires
        service.register_next(RegisterState::LookingUpCode(user), Reply::Code(Some(code)), now, next, step),
    ensures
        (code@.expires_at.secs < now.secs || (code@.expires_at.secs == now.secs && code@.expires_at.nanos < now.nanos))
            ==> next == RegisterState::DeletingCodes(user) && step == Step::<RegisterResult>::Perform(
                Request::DeleteCodesByUserAction(user.base.id, EmailCodeAction::Register)),
        !(code@.expires_at.secs < now.secs || (code@.expires_at.secs == now.secs && code@.expires_at.nanos < now.nanos))
            ==> next is Finished && step == Step::<RegisterResult>::Finish(Err(AuthError::AlreadySent(user))),
{
    lemma_expired_iff_expiry_passed(code, now);
}

/// A failed request ends a login with that failure's text: a failed user
/// lookup is a storage error (never wrong credentials), a failed signing is a
/// token error; and such a step is never refused.
pub proof fn lemma_login_failure_is_reported(
    service: AuthService,
    state: LoginState,
    e: String,
    now: Timestamp,
    next: LoginState,
    step: Step<TokenResponse>,
)
    requires
        !(state is Finished),
        service.login_next(state, Reply::Failed(e), now, next, step),
    ensures
        !service.login_refuses_at(state, Reply::Failed(e), now),
        next is Finished,
        state is LookingUpUser ==> step == Step::<TokenResponse>::Finish(Err(AuthError::Database(e))),
        !(state is LookingUpUser) ==> step == Step::<TokenResponse>::Finish(Err(AuthError::JWTError(e))),
        step != Step::<TokenResponse>::Finish(Err(AuthError::InvalidCredentials)),
{
}

/// In every state of an e-mail verification, a failed storage request ends
/// the verification with that failure as a storage error.
pub proof fn lemma_verify_email_failure_is_storage_error(
    state: VerifyEmailState,
    e: String,
    now: Timestamp,
    next: VerifyEmailState,
    step: Step<User>,
)
    requires
        !(state is Finished),
        AuthService::verify_email_next(state, Reply::Failed(e), now, next, step),
    ensures
        next is Finished,
        step == Step::<User>::Finish(Err(AuthError::Database(e))),
{
}

/// A whole successful login: the access token signed first and the refresh
/// token signed second are handed back as such, both carry the user's id and
/// the configured key, the access token expires `access_expire_min` minutes
/// after the first signing request, the refresh token `refresh_expire_min`
/// minutes after the second, and `expires_in` is the access lifetime in
/// seconds.
pub proof fn lemma_login_hands_back_both_tokens(
    service: AuthService,
    password: String,
    user: User,
    now1: Timestamp,
    next1: LoginState,
    access_claims: Claims,
    access_key: String,
    access: String,
    now2: Timestamp,
    next2: LoginState,
    refresh_claims: Claims,
    refresh_key: String,
    refresh: String,
    now3: Timestamp,
    next3: LoginState,
    tokens: TokenResponse,
)
    requires
        service.login_next(LoginState::LookingUpUser { password }, Reply::User(Some(user)), now1, next1,
            Step::Perform(Request::SignToken(access_claims, access_key))),
        service.login_next(next1, Reply::Signed(access), now2, next2,
            Step::Perform(Request::SignToken(refresh_claims, refresh_key))),
        service.login_next(next2, Reply::Signed(refresh), now3, next3, Step::Finish(Ok(tokens))),
        now1.plus_minutes(service.settings.auth.access_expire_min as int) matches Some(t) && 0 <= t.secs <= usize::MAX,
        now2.plus_minutes(service.settings.auth.refresh_expire_min as int) matches Some(t) && 0 <= t.secs <= usize::MAX,
    ensures
        user.verified,
        access_claims.user_id == user.base.id,
        refresh_claims.user_id == user.base.id,
        access_key == service.settings.auth.secret_key,
        refresh_key == service.settings.auth.secret_key,
        access_claims.exp == now1.secs + service.settings.auth.access_expire_min * 60,
        refresh_claims.exp == now2.secs + service.settings.auth.refresh_expire_min * 60,
        tokens.access_token == access,
        tokens.refresh_token == refresh,
        tokens.token_type@ == "Bearer"@,
        tokens.expires_in == access_claims.exp - now1.secs,
{
}

/// In every state of a registration, a failed storage request ends the
/// registration with that failure as a storage error.
pub proof fn lemma_register_failure_is_storage_error(
    service: AuthService,
    state: RegisterState,
    e: String,
    now: Timestamp,
    next: RegisterState,
    step: Step<RegisterResult>,
)
    requires
        !(state is Finished),
        service.register_next(state, Reply::Failed(e), now, next, step),
    ensures
        next is Finished,
        step == Step::<RegisterResult>::Finish(Err(AuthError::Database(e))),
{
}

} // verus!
