//! Session records: the binding of a browser cookie to a user.

use vstd::prelude::*;

verus! {

/// A stored session row.  `cookie_id` is the identity the browser presents;
/// `last_active` is the storage-formatted time of the last use.
#[derive(Debug, Clone)]
pub struct Session {
    pub id: i64,
    pub cookie_id: String,
    pub user_id: i64,
    pub last_active: String,
}

} // verus!
