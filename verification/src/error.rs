//! The shared error kinds of the services and the HTTP reply each one gets.
use vstd::prelude::*;
use crate::response::Response;

verus! {

/// Errors shared by the services.
#[derive(Debug)]
pub enum Error {
    /// A service-specific failure with its own code and message.
    ServiceError(i32, &'static str),
    /// An internal failure described by a message.
    ServerError(String),
    NetWorkError,
    NotLogin,
    NotExistUid,
    RequestTimeout,
    BadRequest,
    UserHasNoFamily,
}

/// An HTTP status and the JSON body sent with it.
#[derive(Debug)]
pub struct HttpReply {
    pub status: u16,
    pub body: Response<String>,
}

/// The text an error displays as.
pub open spec fn display_text(e: Error) -> Seq<char> {
    match e {
        Error::ServiceError(_, msg) => msg@,
        Error::ServerError(msg) => msg@,
        Error::NetWorkError => "网络异常"@,
        Error::NotLogin => "未登录"@,
        Error::NotExistUid => "不存在的uid"@,
        Error::RequestTimeout => "请求超时"@,
        Error::BadRequest => "请求参数错误"@,
        Error::UserHasNoFamily => "尚未加入家庭"@,
    }
}

/// The HTTP status an error is answered with.
pub open spec fn reply_status(e: Error) -> u16 {
    match e {
        Error::RequestTimeout => 408,
        Error::BadRequest => 400,
        _ => 200,
    }
}

/// The body code an error is answered with.
pub open spec fn reply_code(e: Error) -> int {
    match e {
        Error::ServiceError(code, _) => code as int,
        Error::ServerError(_) => -500,
        Error::NetWorkError => -500,
        Error::NotLogin => -401,
        Error::NotExistUid => 10000,
        Error::RequestTimeout => -408,
        Error::BadRequest => -400,
        Error::UserHasNoFamily => -500,
    }
}

/// The body message an error is answered with.
pub open spec fn reply_text(e: Error) -> Seq<char> {
    match e {
        Error::NotExistUid => "uid错误"@,
        _ => display_text(e),
    }
}

impl Error {
    /// The text the error displays as.
    pub fn message(&self) -> (s: String)
        ensures
            s@ == display_text(*self),
    {
        match self {
            Error::ServiceError(_, msg) => (*msg).to_owned(),
            Error::ServerError(msg) => msg.clone(),
            Error::NetWorkError => "网络异常".to_owned(),
            Error::NotLogin => "未登录".to_owned(),
            Error::NotExistUid => "不存在的uid".to_owned(),
            Error::RequestTimeout => "请求超时".to_owned(),
            Error::BadRequest => "请求参数错误".to_owned(),
            Error::UserHasNoFamily => "尚未加入家庭".to_owned(),
        }
    }

    /// The HTTP reply for the error: its status and a failure body.
    pub fn into_reply(self) -> (r: HttpReply)
        ensures
            r.status == reply_status(self),
            r.body.is_bare(reply_code(self), reply_text(self)),
    {
        match self {
            Error::ServiceError(code, msg) => HttpReply { status: 200, body: Response::fail(code, msg) },
            Error::NetWorkError => HttpReply { status: 200, body: Response::fail(-500, "网络异常") },
            Error::NotLogin => HttpReply { status: 200, body: Response::fail(-401, "未登录") },
            Error::NotExistUid => HttpReply { status: 200, body: Response::fail(10000, "uid错误") },
            Error::ServerError(msg) => HttpReply { status: 200, body: Response::fail(-500, msg.as_str()) },
            Error::RequestTimeout => HttpReply { status: 408, body: Response::fail(-408, "请求超时") },
            Error::BadRequest => HttpReply { status: 400, body: Response::fail(-400, "请求参数错误") },
            Error::UserHasNoFamily => HttpReply { status: 200, body: Response::fail(-500, "尚未加入家庭") },
        }
    }
}

/// A service error is answered as it was raised, with its own code and
/// message; an error answered with an HTTP failure status carries that status,
/// negated, as its code; every other error is answered with status 200.
pub proof fn law_error_replies_carry_their_cause(e: Error, code: i32, msg: &'static str)
    ensures
        reply_status(Error::ServiceError(code, msg)) == 200,
        reply_code(Error::ServiceError(code, msg)) == code,
        reply_text(Error::ServiceError(code, msg)) == msg@,
        reply_status(e) != 200 ==> reply_code(e) == -(reply_status(e) as int),
        reply_status(e) != 200 <==> (e is RequestTimeout || e is BadRequest),
{
}

/// Every error but `NotExistUid` is answered with the very text it displays as.
pub proof fn law_reply_text_is_display_text(e: Error)
    requires
        !(e is NotExistUid),
    ensures
        reply_text(e) == display_text(e),
{
}

/// Every error reply is a failure body: it carries no payload and its code is
/// not the success code, except for a service error that chose code `0`.
pub proof fn law_error_reply_is_failure(e: Error)
    requires
        !(e matches Error::ServiceError(code, _) && code == 0),
    ensures
        reply_code(e) != 0,
{
}

} // verus!
