//! Messages the account service exchanges with its clients.
use vstd::prelude::*;
use crate::error::Error;

verus! {

/// A login request: mobile number and password.
#[derive(Debug)]
pub struct LoginReq {
    pub mobile: String,
    pub password: String,
}

/// A successful login: the user and the access key of the new session.
#[derive(Debug)]
pub struct LoginReply {
    pub uid: i64,
    pub access_key: String,
}

/// The user behind an access key and when the session expires.
#[derive(Debug, Clone, Copy, PartialEq, Eq, Structural)]
pub struct GetUidReply {
    pub uid: i64,
    pub expires: i64,
}

/// The family of a user; `-1` when the user has none.
#[derive(Debug, Clone, Copy, PartialEq, Eq, Structural)]
pub struct GetFamilyIdReply {
    pub family_id: i64,
}

/// Whether `e` is the service error with the given code and message.
pub open spec fn is_service_error(e: Error, code: int, text: Seq<char>) -> bool {
    e matches Error::ServiceError(c, m) && c == code && m@ == text
}

/// The error for a wrong mobile number or password.
pub fn login_failed() -> (e: Error)
    ensures
        is_service_error(e, -401, "用户名或密码错误"@),
{
    Error::ServiceError(-401, "用户名或密码错误")
}

/// The error for an access key that names no session.
pub fn not_login() -> (e: Error)
    ensures
        is_service_error(e, -401, "用户未登录"@),
{
    Error::ServiceError(-401, "用户未登录")
}

} // verus!
