//! The JSON body every HTTP endpoint answers with.
use vstd::prelude::*;

verus! {

/// Body of every HTTP reply: optional payload, optional message and a code
/// that is `0` on success.
#[derive(Debug)]
pub struct Response<T> {
    pub data: Option<T>,
    pub message: Option<String>,
    pub code: i32,
}

impl<T> Response<T> {
    /// Whether the message is present and reads `text`.
    pub open spec fn message_is(&self, text: Seq<char>) -> bool {
        self.message matches Some(m) && m@ == text
    }

    /// Whether the body carries no payload, the message `text` and the code `code`.
    pub open spec fn is_bare(&self, code: int, text: Seq<char>) -> bool {
        &&& self.data is None
        &&& self.message_is(text)
        &&& self.code == code
    }

    /// A successful reply that carries `data`.
    pub fn data(data: T) -> (r: Response<T>)
        ensures
            r.data == Some(data),
            r.message_is("success"@),
            r.code == 0,
    {
        Response { data: Some(data), message: Some("success".to_owned()), code: 0 }
    }
}

impl Response<String> {
    /// A successful reply without payload.
    pub fn success() -> (r: Response<String>)
        ensures
            r.is_bare(0, "success"@),
    {
        Response { data: None, message: Some("success".to_owned()), code: 0 }
    }

    /// A failed reply with the given code and message.
    pub fn fail(code: i32, message: &str) -> (r: Response<String>)
        ensures
            r.is_bare(code as int, message@),
    {
        Response { data: None, message: Some(message.to_owned()), code }
    }

    /// The reply for a congested or failing backend.
    pub fn network_error() -> (r: Response<String>)
        ensures
            r.is_bare(-500, "网络拥堵"@),
    {
        Response { data: None, message: Some("网络拥堵".to_owned()), code: -500 }
    }

    /// The reply for a wrong mobile number or password.
    pub fn login_error() -> (r: Response<String>)
        ensures
            r.is_bare(-401, "用户名或密码错误"@),
    {
        Response { data: None, message: Some("用户名或密码错误".to_owned()), code: -401 }
    }

    /// The reply for a caller without a valid session.
    pub fn not_login() -> (r: Response<String>)
        ensures
            r.is_bare(-401, "未登录"@),
    {
        Response { data: None, message: Some("未登录".to_owned()), code: -401 }
    }

    /// The reply for malformed request parameters.
    pub fn bad_request(message: &str) -> (r: Response<String>)
        ensures
            r.is_bare(-400, message@),
    {
        Response { data: None, message: Some(message.to_owned()), code: -400 }
    }

    /// The reply for an operation the caller may not perform.
    pub fn forbidden() -> (r: Response<String>)
        ensures
            r.is_bare(-403, "无权操作!"@),
    {
        Response { data: None, message: Some("无权操作!".to_owned()), code: -403 }
    }
}

} // verus!
