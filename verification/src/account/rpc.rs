//! The account service's gRPC answers.
use vstd::prelude::*;
use crate::account::cache::SessionOutcome;
use crate::account::dto::{GetFamilyIdReply, GetUidReply};
use crate::error::{display_text, Error};

verus! {

/// gRPC status codes the account service answers with.
#[derive(Debug, Clone, Copy, PartialEq, Eq, Structural)]
pub enum RpcCode {
    InvalidArgument,
    NotFound,
    Internal,
}

/// A gRPC failure status.
#[derive(Debug)]
pub struct RpcStatus {
    pub code: RpcCode,
    pub message: String,
}

impl RpcStatus {
    /// Whether the status has the given code and message.
    pub open spec fn is(&self, code: RpcCode, text: Seq<char>) -> bool {
        self.code == code && self.message@ == text
    }
}

/// Rejects an empty access key before any lookup.
pub fn check_access_key(access_key: &str) -> (r: Option<RpcStatus>)
    ensures
        access_key@.len() == 0 ==> (r matches Some(s) && s.is(RpcCode::InvalidArgument, "参数错误!"@)),
        access_key@.len() != 0 ==> r is None,
{
    if access_key.is_empty() {
        Some(RpcStatus { code: RpcCode::InvalidArgument, message: "参数错误!".to_owned() })
    } else {
        None
    }
}

/// A service result as a gRPC answer: errors become internal failures that
/// carry the error's text.
pub fn rpc_result<T>(r: Result<T, Error>) -> (a: Result<T, RpcStatus>)
    ensures
        match r {
            Ok(v) => a == Ok::<T, RpcStatus>(v),
            Err(e) => a matches Err(s) && s.is(RpcCode::Internal, display_text(e)),
        },
{
    match r {
        Ok(v) => Ok(v),
        Err(e) => Err(RpcStatus { code: RpcCode::Internal, message: e.message() }),
    }
}

/// The family answer of the gRPC handler.
pub fn family_reply(r: Result<i64, Error>) -> (a: Result<GetFamilyIdReply, RpcStatus>)
    ensures
        match r {
            Ok(f) => a == Ok::<GetFamilyIdReply, RpcStatus>(GetFamilyIdReply { family_id: f }),
            Err(e) => a matches Err(s) && s.is(RpcCode::Internal, display_text(e)),
        },
{
    match r {
        Ok(f) => Ok(GetFamilyIdReply { family_id: f }),
        Err(e) => Err(RpcStatus { code: RpcCode::Internal, message: e.message() }),
    }
}

/// The older gRPC handler's check of the access key.
pub fn legacy_check_access_key(access_key: &str) -> (r: Option<RpcStatus>)
    ensures
        access_key@.len() == 0 ==> (r matches Some(s) && s.is(RpcCode::InvalidArgument, "access_key不合法"@)),
        access_key@.len() != 0 ==> r is None,
{
    if access_key.is_empty() {
        Some(RpcStatus { code: RpcCode::InvalidArgument, message: "access_key不合法".to_owned() })
    } else {
        None
    }
}

/// The older gRPC handler's answer to a session lookup.
pub fn legacy_uid_reply<E>(outcome: SessionOutcome<E>) -> (a: Result<GetUidReply, RpcStatus>)
    ensures
        match outcome {
            Err(_) => a matches Err(s) && s.is(RpcCode::Internal, "redis异常"@),
            Ok((Some(uid), expires)) => a == Ok::<GetUidReply, RpcStatus>(GetUidReply { uid, expires }),
            Ok((None, _)) => a matches Err(s) && s.is(RpcCode::NotFound, "未登录"@),
        },
{
    match outcome {
        Err(_) => Err(RpcStatus { code: RpcCode::Internal, message: "redis异常".to_owned() }),
        Ok((Some(uid), expires)) => Ok(GetUidReply { uid, expires }),
        Ok((None, _)) => Err(RpcStatus { code: RpcCode::NotFound, message: "未登录".to_owned() }),
    }
}

/// The older gRPC handler's answer to a family lookup: a failed database is
/// an internal failure.
pub fn legacy_family_reply<E>(r: Result<i64, E>) -> (a: Result<GetFamilyIdReply, RpcStatus>)
    ensures
        match r {
            Ok(f) => a == Ok::<GetFamilyIdReply, RpcStatus>(GetFamilyIdReply { family_id: f }),
            Err(_) => a matches Err(s) && s.is(RpcCode::Internal, "db异常"@),
        },
{
    match r {
        Ok(f) => Ok(GetFamilyIdReply { family_id: f }),
        Err(_) => Err(RpcStatus { code: RpcCode::Internal, message: "db异常".to_owned() }),
    }
}

} // verus!
