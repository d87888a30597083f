//! The decisions of session authentication. Instants are microseconds since the Unix
//! epoch (UTC); the caller reads the cookie, the clock and the database.
use crate::error::{AuthError, AuthErrorView};
use crate::models::UserId;
use vstd::prelude::*;

verus! {

/// What a session token is worth, once its session has been looked up.
pub enum SessionCheck {
    /// No session has the token.
    Missing,
    /// The session has expired; it is to be deleted.
    Expired,
    /// The session is valid and belongs to this user.
    Valid(UserId),
}

/// The verdict on a session found with `session` (its user and expiry, or `None` where
/// no session has the token) at `now`: a session is valid up to and including the
/// instant it expires.
pub fn check_session(session: Option<(UserId, i64)>, now: i64) -> (c: SessionCheck)
    ensures
        match session {
            None => c is Missing,
            Some((user, expires_at)) => if expires_at < now {
                c is Expired
            } else {
                c matches SessionCheck::Valid(u) && u@ == user@
            },
        },
{
    match session {
        None => SessionCheck::Missing,
        Some((user, expires_at)) => {
            if expires_at < now {
                SessionCheck::Expired
            } else {
                SessionCheck::Valid(user)
            }
        },
    }
}

/// The authentication of a request from the verdict on its session: a missing or
/// expired session is `Unauthorized`; a valid one names the user to load.
pub fn session_user(check: &SessionCheck) -> (r: Result<UserId, AuthError>)
    ensures
        match r {
            Ok(u) => check matches SessionCheck::Valid(v) && u@ == v@,
            Err(e) => e@ == AuthErrorView::Unauthorized && !(check is Valid),
        },
{
    match check {
        SessionCheck::Valid(u) => Ok(*u),
        _ => Err(AuthError::Unauthorized),
    }
}

} // verus!
