//! Session establishment for incoming requests.
//!
//! For every request the middleware decides a cookie identity — the one the
//! client presented, or a freshly minted one that must then be set as a
//! cookie — and resolves it against the stored session rows to the id of the
//! authenticated user, zero when there is none.  The storage lookup itself
//! is the embedding layer's business; the decisions on either side of it are
//! made here.

use vstd::prelude::*;

use crate::models::sessions;

verus! {

/// The name of the cookie that carries a client's identity.
pub const COOKIE_USER_IDENT: &'static str = "user_identity";

/// The session attached to a request: the cookie identity it presented and
/// the user it is authenticated as (zero for none).
#[derive(Debug, Default, Clone)]
pub struct Session {
    pub cookie_id: String,
    pub user_id: i64,
}

impl Session {
    /// A session of exactly the given cookie identity and user.
    pub fn new(cookie_id: String, user_id: i64) -> (s: Session)
        ensures
            s.cookie_id == cookie_id,
            s.user_id == user_id,
    {
        Session { cookie_id, user_id }
    }
}

/// A character of a minted cookie identity: the URL-safe set.
pub open spec fn is_cookie_char(c: char) -> bool {
    c == '_' || c == '-' || ('0' <= c && c <= '9') || ('a' <= c && c <= 'z') || ('A' <= c && c
        <= 'Z')
}

/// Relies on nanoid::format with nanoid's URL-safe alphabet and its default
/// operating-system randomness: the returned id has exactly `len`
/// characters, each from that alphabet.  The randomness only decides which
/// such id comes back.
#[verifier::external_body]
fn random_cookie_id(len: usize) -> (r: String)
    ensures
        r@.len() == len,
        forall|i: int| 0 <= i < r@.len() ==> is_cookie_char(#[trigger] r@[i]),
{
    nanoid::format(nanoid::rngs::default, &nanoid::alphabet::SAFE, len)
}

/// Decide a request's cookie identity: keep a non-empty id the client
/// presented; otherwise mint a fresh eight-character id.  The second
/// component says whether the id is fresh and must be set as a cookie.
pub fn establish_cookie_id(existing: Option<String>) -> (r: (String, bool))
    ensures
        match existing {
            Some(id) => (if id@.len() > 0 {
                r.0 == id && !r.1
            } else {
                r.0@.len() == 8 && r.1
            }),
            None => r.0@.len() == 8 && r.1,
        },
        r.1 ==> forall|i: int| 0 <= i < r.0@.len() ==> is_cookie_char(#[trigger] r.0@[i]),
{
    match existing {
        Some(id) => {
            if !id.as_str().is_empty() {
                (id, false)
            } else {
                (random_cookie_id(8), true)
            }
        },
        None => (random_cookie_id(8), true),
    }
}

/// Resolve a looked-up session row to the requesting user: the row's user
/// when one was found for the cookie, zero — no authenticated user — when
/// none was.
pub fn session_user_id(found: Option<&sessions::Session>) -> (uid: i64)
    ensures
        match found {
            Some(s) => uid == s.user_id,
            None => uid == 0,
        },
{
    match found {
        Some(s) => s.user_id,
        None => 0,
    }
}

/// The middleware service: wraps an inner service and attaches a [`Session`]
/// to every request before handing it on.
#[derive(Clone, Debug)]
pub struct SessionService<S> {
    inner: S,
}

impl<S> SessionService<S> {
    /// The wrapped service.
    pub closed spec fn inner_service(self) -> S {
        self.inner
    }

    /// Give the wrapped service back.
    pub fn into_inner(self) -> (s: S)
        ensures
            s == self.inner_service(),
    {
        self.inner
    }
}

/// The layer that wraps a service in a [`SessionService`].
#[derive(Clone, Copy, Debug, Default)]
pub struct SessionManagerLayer;

impl SessionManagerLayer {
    /// Wrap `inner` in the session middleware.
    pub fn layer<S>(&self, inner: S) -> (svc: SessionService<S>)
        ensures
            svc.inner_service() == inner,
    {
        SessionService { inner }
    }
}

} // verus!
