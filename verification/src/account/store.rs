//! The account service's MySQL queries.
use vstd::prelude::*;
use crate::sql::{bound_views, text_value, SqlValue, SqlValueView};

verus! {

/// A user row, as the login needs it.
#[derive(Debug)]
pub struct User {
    pub id: i64,
    pub family_id: Option<i64>,
    pub mobile: String,
    pub password: String,
}

/// Query for the user with a mobile number.
pub const SELECT_USER_BY_MOBILE_SQL: &'static str = "select id, family_id, mobile, password, ctime, mtime from user where mobile=?";

/// Query for the family of a user.
pub const SELECT_FAMILY_ID_BY_UID_SQL: &'static str = "select family_id from user where id=?";

/// A query of the account service together with the value it binds.
#[derive(Debug)]
pub enum UserQuery {
    /// The user with this mobile number; exactly one row is expected.
    FindUserByMobile { mobile: String },
    /// The family of this user; exactly one row is expected.
    FamilyIdByUid { uid: i64 },
}

/// The value a user query binds to its one placeholder.
pub open spec fn user_query_binds(q: UserQuery) -> Seq<SqlValueView> {
    match q {
        UserQuery::FindUserByMobile { mobile } => seq![SqlValueView::Text(mobile@)],
        UserQuery::FamilyIdByUid { uid } => seq![SqlValueView::Int(uid)],
    }
}

/// A user query binds the mobile number it looks up, or the user whose
/// family it reads, to its one placeholder.
pub proof fn law_user_query_binds_its_key(mobile: String, uid: i64)
    ensures
        user_query_binds(UserQuery::FindUserByMobile { mobile }) =~= seq![SqlValueView::Text(mobile@)],
        user_query_binds(UserQuery::FamilyIdByUid { uid }) =~= seq![SqlValueView::Int(uid)],
{
}

impl UserQuery {
    /// The values the query binds, in the order of its placeholders.
    pub fn binds(&self) -> (v: Vec<SqlValue>)
        ensures
            bound_views(v@) == user_query_binds(*self),
    {
        let mut v: Vec<SqlValue> = Vec::new();
        match self {
            UserQuery::FindUserByMobile { mobile } => v.push(text_value(mobile.as_str())),
            UserQuery::FamilyIdByUid { uid } => v.push(SqlValue::Int(*uid)),
        }
        assert(bound_views(v@) =~= user_query_binds(*self));
        v
    }

    /// The SQL text of the query.
    pub fn sql(&self) -> (s: &'static str)
        ensures
            s@ == (match *self {
                UserQuery::FindUserByMobile { .. } => SELECT_USER_BY_MOBILE_SQL@,
                UserQuery::FamilyIdByUid { .. } => SELECT_FAMILY_ID_BY_UID_SQL@,
            }),
    {
        match self {
            UserQuery::FindUserByMobile { .. } => SELECT_USER_BY_MOBILE_SQL,
            UserQuery::FamilyIdByUid { .. } => SELECT_FAMILY_ID_BY_UID_SQL,
        }
    }
}

/// A failed single-row query: no row, or any other database error.
#[derive(Debug)]
pub enum RowError<E> {
    RowNotFound,
    Other(E),
}

/// The family of a user from the single-row query: a missing user has no
/// family; other errors are passed on.
pub fn family_id_from_row<E>(row: Result<Option<i64>, RowError<E>>) -> (r: Result<Option<i64>, E>)
    ensures
        match row {
            Ok(f) => r == Ok::<Option<i64>, E>(f),
            Err(RowError::RowNotFound) => r == Ok::<Option<i64>, E>(None),
            Err(RowError::Other(e)) => r == Err::<Option<i64>, E>(e),
        },
{
    match row {
        Ok(f) => Ok(f),
        Err(RowError::RowNotFound) => Ok(None),
        Err(RowError::Other(e)) => Err(e),
    }
}

} // verus!
