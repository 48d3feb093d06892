//! The login check in front of the endpoints that need a logged-in caller.
use vstd::prelude::*;
use crate::error::{reply_code, reply_status, reply_text, Error, HttpReply};

verus! {

/// Request header that carries the access key.
pub const ACCESS_KEY_HEADER: &'static str = "access_key";

/// Name under which the caller's user id is kept in the request context.
pub const UID_KEY: &'static str = "uid";

/// A login check waiting for the user id behind the access key.
pub struct LoginCheck {}

/// How a login check starts.
pub enum LoginCheckStart {
    /// The request is answered with this reply and goes no further.
    Reject(HttpReply),
    /// The user id behind the access key must be resolved.
    ResolveUid(LoginCheck, String),
}

/// How a login check ends.
pub enum LoginCheckEnd {
    /// The request is answered with this reply and goes no further.
    Reject(HttpReply),
    /// The request goes on, with the caller's user id in its context.
    Proceed(i64),
}

/// Whether `r` is the reply for a caller who is not logged in.
pub open spec fn is_not_login_reply(r: HttpReply) -> bool {
    &&& r.status == reply_status(Error::NotLogin)
    &&& r.body.is_bare(reply_code(Error::NotLogin), reply_text(Error::NotLogin))
}

/// Starts the check with the access key header, if the request has one.
pub fn start_login_check(access_key: Option<String>) -> (r: LoginCheckStart)
    ensures
        access_key is None ==> (r matches LoginCheckStart::Reject(reply) && is_not_login_reply(reply)),
        access_key matches Some(k) ==> (r matches LoginCheckStart::ResolveUid(_, asked) && asked == k),
{
    match access_key {
        None => LoginCheckStart::Reject(Error::NotLogin.into_reply()),
        Some(k) => LoginCheckStart::ResolveUid(LoginCheck {}, k),
    }
}

impl LoginCheck {
    /// Ends the check: a resolved user goes on, a failed resolution is
    /// answered as not logged in.
    pub fn on_uid<E>(self, uid: Result<i64, E>) -> (r: LoginCheckEnd)
        ensures
            uid matches Ok(u) ==> r == LoginCheckEnd::Proceed(u),
            uid is Err ==> (r matches LoginCheckEnd::Reject(reply) && is_not_login_reply(reply)),
    {
        match uid {
            Ok(u) => LoginCheckEnd::Proceed(u),
            Err(_) => LoginCheckEnd::Reject(Error::NotLogin.into_reply()),
        }
    }
}

} // verus!
