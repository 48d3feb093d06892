//! Errors of the agenda service and the HTTP reply each one gets.
use vstd::prelude::*;
use crate::error::HttpReply;
use crate::response::Response;

verus! {

/// Errors of the agenda service.
#[derive(Debug)]
pub enum Error {
    NetWorkError,
    ServerError(String),
    NotLogin,
    GetParamFailed,
    NoLedger,
    Forbidden,
    NoFamily,
}

/// The text an error displays as.
pub open spec fn display_text(e: Error) -> Seq<char> {
    match e {
        Error::NetWorkError => "网络拥堵!"@,
        Error::ServerError(msg) => "服务器错误! "@ + msg@,
        Error::NotLogin => "未登录!"@,
        Error::GetParamFailed => "参数不合法!"@,
        Error::NoLedger => "不存在此记录!"@,
        Error::Forbidden => "不允许操作!"@,
        Error::NoFamily => "family不存在!"@,
    }
}

/// The HTTP status an error is answered with.
pub open spec fn reply_status(e: Error) -> u16 {
    match e {
        Error::NetWorkError => 500,
        Error::ServerError(_) => 500,
        Error::NotLogin => 401,
        Error::GetParamFailed => 400,
        Error::NoLedger => 400,
        Error::Forbidden => 403,
        Error::NoFamily => 403,
    }
}

impl Error {
    /// The text the error displays as.
    pub fn message(&self) -> (s: String)
        ensures
            s@ == display_text(*self),
    {
        match self {
            Error::NetWorkError => "网络拥堵!".to_owned(),
            Error::ServerError(msg) => {
                let mut s = "服务器错误! ".to_owned();
                s.append(msg.as_str());
                s
            },
            Error::NotLogin => "未登录!".to_owned(),
            Error::GetParamFailed => "参数不合法!".to_owned(),
            Error::NoLedger => "不存在此记录!".to_owned(),
            Error::Forbidden => "不允许操作!".to_owned(),
            Error::NoFamily => "family不存在!".to_owned(),
        }
    }

    /// The HTTP reply for the error: its status, and a failure body whose code
    /// repeats the status and whose message is the error's text.
    pub fn into_reply(self) -> (r: HttpReply)
        ensures
            r.status == reply_status(self),
            r.body.is_bare(reply_status(self) as int, display_text(self)),
    {
        let text = self.message();
        let status: u16 = match self {
            Error::NetWorkError => 500,
            Error::NotLogin => 401,
            Error::GetParamFailed | Error::NoLedger => 400,
            Error::ServerError(_) => 500,
            Error::Forbidden | Error::NoFamily => 403,
        };
        HttpReply { status, body: Response::fail(status as i32, text.as_str()) }
    }
}

/// Every error of the agenda service is answered with a client or server
/// failure status.
pub proof fn law_errors_answer_failure_statuses(e: Error)
    ensures
        400 <= reply_status(e) < 600,
{
}

} // verus!
