//! Decisions of the schedule endpoint.
use vstd::prelude::*;
use crate::agenda::dto::GetScheduleReq;
use crate::agenda::error::{display_text as agenda_text, Error as AgendaError};
use crate::error::Error;
use crate::sql::{bound_views, SqlValue, SqlValueView};
use crate::time::{instant_of, timestamp_to_instant, Instant};

verus! {

/// Reads the active schedules of a user or of the user's family that overlap
/// a time window.
pub const GET_USER_LEDGER_LIST_SQL: &'static str = "select id, uid, family_id, title, content, start_time, end_time, schedule_type, schedule_extra, state, ctime, mtime from schedule where (uid=? or (family_id>0 and family_id=?)) and start_time<? and end_time>? and state=0";

/// The schedule query with the values it binds, in this order: `uid`,
/// `family_id`, `starts_before`, `ends_after`. A schedule overlaps the window
/// when it starts before the window's end and ends after the window's start.
#[derive(Debug, Clone, Copy, PartialEq, Eq, Structural)]
pub struct ScheduleQuery {
    pub uid: i64,
    pub family_id: i64,
    /// The end of the window.
    pub starts_before: Instant,
    /// The start of the window.
    pub ends_after: Instant,
}

/// The values the schedule query binds, in the order of its placeholders.
pub open spec fn schedule_binds(q: ScheduleQuery) -> Seq<SqlValueView> {
    seq![
        SqlValueView::Int(q.uid),
        SqlValueView::Int(q.family_id),
        SqlValueView::Time(q.starts_before),
        SqlValueView::Time(q.ends_after),
    ]
}

/// The schedule query binds the user, the family, the end of the window (a
/// schedule must start before it) and the start of the window (a schedule
/// must end after it), in that order.
pub proof fn law_schedule_binds_follow_the_placeholders(uid: i64, family_id: i64, window_start: Instant, window_end: Instant)
    ensures
        schedule_binds(ScheduleQuery { uid, family_id, starts_before: window_end, ends_after: window_start }) =~= seq![
            SqlValueView::Int(uid), SqlValueView::Int(family_id), SqlValueView::Time(window_end), SqlValueView::Time(window_start),
        ],
{
}

impl ScheduleQuery {
    /// The values the query binds, in the order of its placeholders.
    pub fn binds(&self) -> (v: Vec<SqlValue>)
        ensures
            bound_views(v@) == schedule_binds(*self),
    {
        let mut v: Vec<SqlValue> = Vec::new();
        v.push(SqlValue::Int(self.uid));
        v.push(SqlValue::Int(self.family_id));
        v.push(SqlValue::Time(self.starts_before));
        v.push(SqlValue::Time(self.ends_after));
        assert(bound_views(v@) =~= schedule_binds(*self));
        v
    }

    /// The SQL text of the query.
    pub fn sql(&self) -> (s: &'static str)
        ensures
            s@ == GET_USER_LEDGER_LIST_SQL@,
    {
        GET_USER_LEDGER_LIST_SQL
    }
}

/// A schedule listing waiting for the caller's family.
pub struct ScheduleAwaitFamily {
    uid: i64,
    req: GetScheduleReq,
}

/// A schedule listing waiting for the rows.
pub struct ScheduleAwaitRows {}

/// What a schedule listing does once the family was resolved.
pub enum AfterScheduleFamily {
    Failed(Error),
    Query(ScheduleAwaitRows, ScheduleQuery),
}

impl ScheduleAwaitFamily {
    /// The caller.
    pub closed spec fn uid(&self) -> i64 {
        self.uid
    }

    /// The request.
    pub closed spec fn req(&self) -> GetScheduleReq {
        self.req
    }

    /// Starts listing the schedules of the logged-in user `uid`: the user's
    /// family is resolved first.
    pub fn start(uid: i64, req: GetScheduleReq) -> (r: (ScheduleAwaitFamily, i64))
        ensures
            r.0.uid() == uid,
            r.0.req() == req,
            r.1 == uid,
    {
        (ScheduleAwaitFamily { uid, req }, uid)
    }

    /// Continues with the family: a failed resolution is a network error;
    /// otherwise the schedules of the user and family in the window are read.
    pub fn on_family<E>(self, family: Result<i64, E>) -> (r: AfterScheduleFamily)
        ensures
            family is Err ==> (r matches AfterScheduleFamily::Failed(e) && e is NetWorkError),
            family matches Ok(f) ==> (r matches AfterScheduleFamily::Query(_, q) && q == (ScheduleQuery {
                uid: self.uid(),
                family_id: f,
                starts_before: instant_of(self.req().end_time as int),
                ends_after: instant_of(self.req().start_time as int),
            })),
    {
        match family {
            Err(_) => AfterScheduleFamily::Failed(Error::NetWorkError),
            Ok(f) => AfterScheduleFamily::Query(
                ScheduleAwaitRows {},
                ScheduleQuery {
                    uid: self.uid,
                    family_id: f,
                    starts_before: timestamp_to_instant(self.req.end_time),
                    ends_after: timestamp_to_instant(self.req.start_time),
                },
            ),
        }
    }
}

impl ScheduleAwaitRows {
    /// Ends the listing: the rows, or a server error that carries the text of
    /// the schedule service's network error.
    pub fn on_rows<T, E>(self, rows: Result<Vec<T>, E>) -> (r: Result<Vec<T>, Error>)
        ensures
            rows matches Ok(v) ==> r == Ok::<Vec<T>, Error>(v),
            rows is Err ==> (r matches Err(Error::ServerError(m)) && m@ == agenda_text(AgendaError::NetWorkError)),
    {
        match rows {
            Ok(v) => Ok(v),
            Err(_) => Err(Error::ServerError(AgendaError::NetWorkError.message())),
        }
    }
}

} // verus!
