//! Information taken from each HTTP request.
use vstd::prelude::*;

verus! {

/// Information extracted from each request.
#[derive(Debug)]
pub struct RequestContext {
    pub user_agent: String,
}

/// The user agent recorded for a request: the header's text when it is
/// readable, `unknown` otherwise.
pub open spec fn user_agent_of(header: Option<Seq<char>>) -> Seq<char> {
    match header {
        Some(h) => h,
        None => "unknown"@,
    }
}

impl RequestContext {
    /// Builds the context from the readable text of the `User-Agent` header,
    /// if the request has one.
    pub fn from_user_agent(header: Option<&str>) -> (c: RequestContext)
        ensures
            c.user_agent@ == user_agent_of(match header { Some(h) => Some(h@), None => None }),
    {
        let user_agent = match header {
            Some(h) => h.to_owned(),
            None => "unknown".to_owned(),
        };
        RequestContext { user_agent }
    }
}

} // verus!
