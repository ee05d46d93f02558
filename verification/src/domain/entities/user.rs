use vstd::prelude::*;

use crate::domain::entities::base::BaseFields;
use crate::time::Timestamp;

verus! {

/// Errors of the password hashing library, carried through unread.
#[verifier::external_type_specification]
#[verifier::external_body]
pub struct ExBcryptError(bcrypt::BcryptError);

/// What `bcrypt::verify(password, hash)` returns for a password and a stored
/// hash: whether they match, or the error it reports (a hash it cannot read).
pub uninterp spec fn bcrypt_verdict(password: Seq<char>, hash: Seq<char>) -> Result<bool, bcrypt::BcryptError>;

/// `bcrypt::hash(password, DEFAULT_COST)`: a hash of the password under a
/// fresh random salt. The salt, hence the hash, depends on chance, and the
/// call fails only when the system gives no randomness; neither is stated.
/// What is stated is the hash's format (version `2b`, cost `12`, then 22
/// characters of salt and 31 of hash: 60 in all) and the library's round
/// trip: checking the same password against the hash it produced succeeds.
#[verifier::external_body]
fn hash_password(password: &str) -> (res: Result<String, bcrypt::BcryptError>)
    ensures
        res matches Ok(h) ==> {
            &&& bcrypt_verdict(password@, h@) == Ok::<bool, bcrypt::BcryptError>(true)
            &&& h@.len() == 60
            &&& h@.take(7) == "$2b$12$"@
        },
{
    bcrypt::hash(password, bcrypt::DEFAULT_COST)
}

/// `bcrypt::verify(password, hash)`: whether the password matches the stored
/// hash, or the error the library reports for it.
#[verifier::external_body]
pub(crate) fn verify_password(password: &str, hash: &str) -> (res: Result<bool, bcrypt::BcryptError>)
    ensures
        res == bcrypt_verdict(password@, hash@),
{
    bcrypt::verify(password, hash)
}

/// A registered user.
#[derive(Debug, Clone)]
pub struct User {
    pub base: BaseFields,
    pub email: String,
    pub password_hash: String,
    pub name: String,
    pub verified: bool,
}

impl User {
    /// A new user created at `now`, whose stored hash accepts `password`.
    pub fn new_at(email: String, password: &str, name: String, verified: bool, now: Timestamp) -> (res: Result<User, bcrypt::BcryptError>)
        ensures
            res matches Ok(u) ==> {
                &&& u.email == email
                &&& u.name == name
                &&& u.verified == verified
                &&& u.base.created_at == now
                &&& u.base.updated_at == now
                &&& bcrypt_verdict(password@, u.password_hash@) == Ok::<bool, bcrypt::BcryptError>(true)
                &&& u.password_hash@.len() == 60
                &&& u.password_hash@.take(7) == "$2b$12$"@
            },
    {
        let hashed = match hash_password(password) {
            Ok(h) => h,
            Err(e) => return Err(e),
        };
        Ok(User { base: BaseFields::new_at(now), email, password_hash: hashed, name, verified })
    }

    /// A new user created now, whose stored hash accepts `password`.
    pub fn new(email: String, password: &str, name: String, verified: bool) -> (res: Result<User, bcrypt::BcryptError>)
        ensures
            res matches Ok(u) ==> {
                &&& u.email == email
                &&& u.name == name
                &&& u.verified == verified
                &&& u.base.wf()
                &&& u.base.created_at == u.base.updated_at
                &&& bcrypt_verdict(password@, u.password_hash@) == Ok::<bool, bcrypt::BcryptError>(true)
                &&& u.password_hash@.len() == 60
                &&& u.password_hash@.take(7) == "$2b$12$"@
            },
    {
        User::new_at(email, password, name, verified, Timestamp::now())
    }
}

} // verus!
