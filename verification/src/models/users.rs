//! User records and the forms that create them.

use vstd::prelude::*;

verus! {

/// A stored user account.  The id is assigned by storage when the row is
/// inserted; `password_hash` holds the bcrypt hash, never the password.
#[derive(Debug, Clone)]
pub struct User {
    pub id: i64,
    pub name: String,
    pub active: bool,
    pub password_hash: String,
}

/// The form a caller submits to create an account.
pub struct CreateUserForm {
    pub name: String,
    pub password: String,
}

/// The form a caller submits to log in.
pub struct LoginForm {
    pub name: String,
    pub password: String,
}

} // verus!
