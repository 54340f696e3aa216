//! The user records as the service layer exposes them to callers: the
//! listing shape, without any credential material.

use vstd::prelude::*;

verus! {

/// A user as listed to callers: no password hash leaves the service layer.
pub struct User {
    pub id: i64,
    pub name: String,
    pub active: bool,
}

/// The shape of a request that only names a user.
pub struct CreateUserForm {
    pub name: String,
}

} // verus!
