use vstd::prelude::*;

use crate::domain::entities::base::BaseFields;
use crate::time::Timestamp;

verus! {

/// What a one-time e-mail code is for.
#[derive(Debug, Clone, Copy, PartialEq, Eq, Structural)]
pub enum EmailCodeAction {
    ChangePassword,
    ChangeEmail,
    Register,
}

/// The SHA-256 digest of the UTF-8 bytes of a text.
pub uninterp spec fn sha256_of(text: Seq<char>) -> Seq<u8>;

/// The SHA-256 digest of the UTF-8 bytes of `text` (`sha2::Sha256::digest`),
/// which is 32 bytes long.
#[verifier::external_body]
fn sha256_digest(text: &str) -> (res: Vec<u8>)
    ensures
        res@ == sha256_of(text@),
        res@.len() == 32,
{
    <sha2::Sha256 as sha2::Digest>::digest(text.as_bytes()).to_vec()
}

/// The lower-case hexadecimal digit of `v` (`v < 16`).
pub open spec fn hex_digit(v: nat) -> char {
    if v < 10 {
        (48 + v) as char
    } else {
        (87 + v) as char
    }
}

/// Two lower-case hexadecimal digits per byte, most significant first.
pub open spec fn hex_lower(bytes: Seq<u8>) -> Seq<char>
    decreases bytes.len(),
{
    if bytes.len() == 0 {
        Seq::empty()
    } else {
        hex_lower(bytes.drop_last()) + seq![
            hex_digit((bytes.last() / 16) as nat),
            hex_digit((bytes.last() % 16) as nat),
        ]
    }
}

/// `hex::encode`: the bytes in lower-case hexadecimal.
#[verifier::external_body]
fn hex_encode(bytes: &[u8]) -> (res: String)
    ensures
        res@ == hex_lower(bytes@),
{
    hex::encode(bytes)
}

/// What is stored in place of a plain code: its SHA-256 digest in hexadecimal.
pub open spec fn code_hash_of(code_plain: Seq<char>) -> Seq<char> {
    hex_lower(sha256_of(code_plain))
}

/// A one-time code sent by e-mail, stored only as a hash.
#[derive(Debug, Clone)]
pub struct EmailCode {
    pub base: BaseFields,
    code_hash: String,
    pub action: EmailCodeAction,
    pub expires_at: Timestamp,
    pub user_id: uuid::Uuid,
}

/// What a code record holds: its fields, the hash taken as text.
pub struct EmailCodeView {
    pub base: BaseFields,
    pub code_hash: Seq<char>,
    pub action: EmailCodeAction,
    pub expires_at: Timestamp,
    pub user_id: uuid::Uuid,
}

impl View for EmailCode {
    type V = EmailCodeView;

    /// Closed: the hash field is private, so outside this module Verus holds
    /// every field of a record opaque, and other modules read the record
    /// through this view alone.
    closed spec fn view(&self) -> EmailCodeView {
        EmailCodeView {
            base: self.base,
            code_hash: self.code_hash@,
            action: self.action,
            expires_at: self.expires_at,
            user_id: self.user_id,
        }
    }
}

impl EmailCode {
    /// A record as it was stored.
    pub fn from_stored(
        base: BaseFields,
        code_hash: String,
        action: EmailCodeAction,
        expires_at: Timestamp,
        user_id: uuid::Uuid,
    ) -> (c: EmailCode)
        ensures
            c@.base == base,
            c@.code_hash == code_hash@,
            c@.action == action,
            c@.expires_at == expires_at,
            c@.user_id == user_id,
    {
        EmailCode { base, code_hash, action, expires_at, user_id }
    }

    /// A code created at `now` that expires `expire_min` minutes later.
    pub fn new_at(
        code_plain: &str,
        action: EmailCodeAction,
        user_id: uuid::Uuid,
        expire_min: u16,
        now: Timestamp,
    ) -> (c: EmailCode)
        requires
            now.wf(),
            now.plus_minutes(expire_min as int) is Some,
        ensures
            c@.code_hash == code_hash_of(code_plain@),
            c@.action == action,
            c@.user_id == user_id,
            c@.base.created_at == now,
            c@.base.updated_at == now,
            Some(c@.expires_at) == now.plus_minutes(expire_min as int),
    {
        let base = BaseFields::new_at(now);
        let expires_at = match base.created_at.checked_add_minutes(expire_min as i64) {
            Some(t) => t,
            None => base.created_at,
        };
        EmailCode { base, code_hash: EmailCode::hash_code(code_plain), action, expires_at, user_id }
    }

    /// A code created now that expires `expire_min` minutes later; or, when
    /// that expiry lies beyond the range of a UTC date-time, the instant read
    /// (never when `expire_min` is 0).
    pub fn new(code_plain: &str, action: EmailCodeAction, user_id: uuid::Uuid, expire_min: u16) -> (res: Result<EmailCode, Timestamp>)
        ensures
            res matches Ok(c) ==> {
                &&& c@.code_hash == code_hash_of(code_plain@)
                &&& c@.action == action
                &&& c@.user_id == user_id
                &&& c@.base.wf()
                &&& c@.base.created_at == c@.base.updated_at
                &&& c@.base.created_at.secs >= 0
                &&& Some(c@.expires_at) == c@.base.created_at.plus_minutes(expire_min as int)
            },
            res matches Err(now) ==> now.wf() && now.secs >= 0 && now.plus_minutes(expire_min as int) is None,
    {
        let now = Timestamp::now();
        if now.checked_add_minutes(expire_min as i64).is_none() {
            return Err(now);
        }
        Ok(EmailCode::new_at(code_plain, action, user_id, expire_min, now))
    }

    /// The hash stored in place of `code_plain`.
    fn hash_code(code_plain: &str) -> (h: String)
        ensures
            h@ == code_hash_of(code_plain@),
    {
        let digest = sha256_digest(code_plain);
        hex_encode(digest.as_slice())
    }

    /// The code `code_plain` matches and has not expired at `now`.
    pub open spec fn accepts(&self, code_plain: Seq<char>, now: Timestamp) -> bool {
        &&& self@.code_hash == code_hash_of(code_plain)
        &&& now.before(self@.expires_at)
    }

    /// Whether `code_plain` is this code and it is still valid at `now`.
    pub fn verify_at(&self, code_plain: &str, now: Timestamp) -> (b: bool)
        ensures
            b == self.accepts(code_plain@, now),
    {
        let hashed = EmailCode::hash_code(code_plain);
        self.code_hash == hashed && now.is_before(&self.expires_at)
    }

    /// Whether `code_plain` is this code and it is still valid at the instant
    /// the clock reads (which instant that is, is not stated).
    pub fn verify(&self, code_plain: &str) -> (b: bool)
        ensures
            b ==> self@.code_hash == code_hash_of(code_plain@),
            exists|now: Timestamp| now.wf() && now.secs >= 0 && b == #[trigger] self.accepts(code_plain@, now),
    {
        let now = Timestamp::now();
        let b = self.verify_at(code_plain, now);
        assert(now.wf() && now.secs >= 0 && b == self.accepts(code_plain@, now));
        b
    }

    /// The identifier of the record.
    pub fn id(&self) -> (id: uuid::Uuid)
        ensures
            id == self@.base.id,
    {
        self.base.id
    }

    /// The stored hash.
    pub fn code_hash(&self) -> (h: &str)
        ensures
            h@ == self@.code_hash,
    {
        self.code_hash.as_str()
    }

    /// The code expired strictly before `now`.
    pub open spec fn expired_spec(&self, now: Timestamp) -> bool {
        self@.expires_at.before(now)
    }

    /// Whether the code expired strictly before `now`.
    pub fn expired_at(&self, now: Timestamp) -> (b: bool)
        ensures
            b == self.expired_spec(now),
    {
        self.expires_at.is_before(&now)
    }

    /// Whether the code has expired by the instant the clock reads (which
    /// instant that is, is not stated).
    pub fn expired(&self) -> (b: bool)
        ensures
            exists|now: Timestamp| now.wf() && now.secs >= 0 && b == #[trigger] self.expired_spec(now),
    {
        let now = Timestamp::now();
        let b = self.expired_at(now);
        assert(now.wf() && now.secs >= 0 && b == self.expired_spec(now));
        b
    }
}

/// A code created from `code_plain` with a validity of `expire_min` minutes
/// accepts `code_plain` exactly until it expires.
pub proof fn lemma_code_accepts_its_plain_text(c: EmailCode, code_plain: Seq<char>, created: Timestamp, expire_min: u16, now: Timestamp)
    requires
        c@.code_hash == code_hash_of(code_plain),
        Some(c@.expires_at) == created.plus_minutes(expire_min as int),
    ensures
        c.accepts(code_plain, now) <==> now.before(c@.expires_at),
        created.before(c@.expires_at) <==> expire_min > 0,
{
}

/// No code is both accepted and expired at the same instant.
pub proof fn lemma_accepted_code_not_expired(c: EmailCode, code_plain: Seq<char>, now: Timestamp)
    requires
        c.accepts(code_plain, now),
    ensures
        !c.expired_spec(now),
{
}

/// A code has expired at `now` exactly when its expiry lies strictly before
/// `now`: in an earlier second, or in the same second at fewer nanoseconds.
pub proof fn lemma_expired_iff_expiry_passed(c: EmailCode, now: Timestamp)
    ensures
        c.expired_spec(now) <==> (c@.expires_at.secs < now.secs
            || (c@.expires_at.secs == now.secs && c@.expires_at.nanos < now.nanos)),
{
}

} // verus!
