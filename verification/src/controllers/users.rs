//! The decision cores of user creation and login.
//!
//! The embedding layer parses requests and talks to storage; everything the
//! handlers decide — how a password becomes a stored hash, when a login is
//! accepted or rejected, how a session is persisted after a login — is made
//! and verified here.  bcrypt does the hashing; its verdict on a password
//! and a hash is deterministic, so it is given a name that the contracts
//! speak of exactly.

use vstd::prelude::*;

use crate::errors::CustomError;
use crate::models::sessions;
use crate::models::users::{CreateUserForm, User};

verus! {

/// bcrypt's verdict on a password and a stored hash: true exactly when
/// bcrypt's verification accepts the pair.  The verdict is a function of the
/// two arguments alone.
pub uninterp spec fn bcrypt_accepts(password: Seq<char>, hash: Seq<char>) -> bool;

/// Relies on bcrypt::hash with bcrypt's default cost: on success the result
/// is a 60-character hash string that bcrypt's verification accepts for
/// exactly this password.  The salt, drawn from operating-system randomness,
/// only decides which such string comes back.
#[verifier::external_body]
fn bcrypt_hash_password(password: &str) -> (r: Result<String, ()>)
    ensures
        r matches Ok(h) ==> h@.len() == 60 && bcrypt_accepts(password@, h@),
{
    match bcrypt::hash(password, bcrypt::DEFAULT_COST) {
        Ok(h) => Ok(h),
        Err(_) => Err(()),
    }
}

/// Relies on bcrypt::verify: whether the stored hash was produced from this
/// password.  A stored hash that bcrypt cannot even parse counts as a
/// mismatch.
#[verifier::external_body]
fn bcrypt_verify_password(password: &str, hash: &str) -> (ok: bool)
    ensures
        ok == bcrypt_accepts(password@, hash@),
{
    bcrypt::verify(password, hash).unwrap_or(false)
}

/// The decision core of user creation: hash the form's password and build
/// the row to insert — name kept, account active, the id left to storage.
/// Only a failure of the hashing itself is reported, as an internal error.
pub fn prepare_new_user(form: CreateUserForm) -> (r: Result<User, CustomError>)
    ensures
        r matches Ok(u) ==> u.name == form.name && u.active == true && u.id == 0
            && u.password_hash@.len() == 60 && bcrypt_accepts(form.password@, u.password_hash@),
        r matches Err(e) ==> e == CustomError::InternalServerError,
{
    match bcrypt_hash_password(form.password.as_str()) {
        Ok(h) => Ok(User { id: 0, name: form.name, active: true, password_hash: h }),
        Err(()) => Err(CustomError::InternalServerError),
    }
}

/// The decision core of login: from the user row found for the submitted
/// name and bcrypt's verdict on the submitted password, accept or reject.
/// An unknown name is invalid credentials; a wrong password — or a stored
/// hash bcrypt cannot read — is a bad request.
pub fn authenticate(user: Option<&User>, password: &str) -> (r: Result<(), CustomError>)
    ensures
        user is None ==> (r matches Err(e) && e == CustomError::InvalidCredentials),
        user matches Some(u) ==> (if bcrypt_accepts(password@, u.password_hash@) {
            r is Ok
        } else {
            r matches Err(e) && e == CustomError::BadRequest
        }),
{
    match user {
        None => Err(CustomError::InvalidCredentials),
        Some(u) => {
            if bcrypt_verify_password(password, u.password_hash.as_str()) {
                Ok(())
            } else {
                Err(CustomError::BadRequest)
            }
        },
    }
}

/// How to persist the session after a successful login.
pub enum SessionPlan {
    /// A session for the cookie exists: refresh the last-active time of the
    /// row with this id.
    Refresh(i64),
    /// No session for the cookie yet: insert one binding this cookie
    /// identity to this user.
    Create(String, i64),
}

/// Decide how a successful login is persisted: refresh the session row
/// found for the cookie, or create the binding when there is none.
pub fn plan_session_upsert(found: Option<&sessions::Session>, cookie_id: String, user_id: i64) -> (p:
    SessionPlan)
    ensures
        match found {
            Some(s) => p == SessionPlan::Refresh(s.id),
            None => p == SessionPlan::Create(cookie_id, user_id),
        },
{
    match found {
        Some(s) => SessionPlan::Refresh(s.id),
        None => SessionPlan::Create(cookie_id, user_id),
    }
}

} // verus!
