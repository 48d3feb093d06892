//! The ledger statements of the agenda service's store.
use vstd::prelude::*;
use crate::agenda::store::{page_offset, ACTIVE_STATE};
use crate::sql::{bound_views, text_value, SqlValue, SqlValueView};
use crate::time::Instant;

verus! {

/// Inserts a personal ledger entry.
pub const ADD_LEDGER_WITH_UID_SQL: &'static str = "insert into ledger (uid, date, ammount, comment, ctime, mtime, clazz_1, clazz_2, state) values (?, ?, ?, ?, ?, ?, ?, ?, ?) ";
/// Inserts a family ledger entry.
pub const ADD_LEDGER_WITH_FAMILY_SQL: &'static str = "insert into ledger (uid, family_id, date, ammount, comment, ctime, mtime, state) values (?, ?, ?, ?, ?, ?, ?, ?) ";
/// Marks a ledger entry as deleted.
pub const DELETE_LEDGER_SQL: &'static str = "update ledger set state = 'deleted' where id = ?";
/// Reads one ledger entry.
pub const GET_LEDGER_SQL: &'static str = "select * from ledger where id=?";
/// Reads a page of a family's active ledger entries, latest date first.
pub const FAMILY_LEDGER_LIST_SQL: &'static str = "select * from ledger where family_id=? and date between ? and ? and state='active' order by date desc limit ?, ?";
/// Reads a page of a user's active ledger entries, latest date first.
pub const USER_LEDGER_LIST_SQL: &'static str = "select * from ledger where uid=? and date between ? and ? and state='active' order by date desc limit ?, ?";

/// A ledger statement with the values it binds, in order. Inserts bind the
/// moment they run as creation and change time and the state `active`.
#[derive(Debug)]
pub enum LedgerStatement {
    /// Binds uid, date, amount, comment, now, now, first and second class, `active`.
    AddWithUid { uid: i64, date: Instant, ammount: i64, comment: String, clazz_1: String, clazz_2: String },
    /// Binds uid, family, date, amount, comment, now, now, `active`.
    AddWithFamily { uid: i64, family_id: i64, date: Instant, ammount: i64, comment: String },
    /// Binds the id; answers the number of rows changed.
    Delete { id: i64 },
    /// Binds the id; answers the entry, if any.
    Get { id: i64 },
    /// Binds family, range start, range end, offset, page size.
    FamilyList { family_id: i64, date_start: Instant, date_end: Instant, offset: i64, limit: i64 },
    /// Binds user, range start, range end, offset, page size.
    UserList { uid: i64, date_start: Instant, date_end: Instant, offset: i64, limit: i64 },
}

/// The SQL text of a ledger statement.
pub open spec fn ledger_sql(s: LedgerStatement) -> Seq<char> {
    match s {
        LedgerStatement::AddWithUid { .. } => ADD_LEDGER_WITH_UID_SQL@,
        LedgerStatement::AddWithFamily { .. } => ADD_LEDGER_WITH_FAMILY_SQL@,
        LedgerStatement::Delete { .. } => DELETE_LEDGER_SQL@,
        LedgerStatement::Get { .. } => GET_LEDGER_SQL@,
        LedgerStatement::FamilyList { .. } => FAMILY_LEDGER_LIST_SQL@,
        LedgerStatement::UserList { .. } => USER_LEDGER_LIST_SQL@,
    }
}

/// The values a ledger statement binds, in the order of its placeholders.
pub open spec fn ledger_binds(s: LedgerStatement) -> Seq<SqlValueView> {
    match s {
        LedgerStatement::AddWithUid { uid, date, ammount, comment, clazz_1, clazz_2 } => seq![
            SqlValueView::Int(uid),
            SqlValueView::Time(date),
            SqlValueView::Int(ammount),
            SqlValueView::Text(comment@),
            SqlValueView::Now,
            SqlValueView::Now,
            SqlValueView::Text(clazz_1@),
            SqlValueView::Text(clazz_2@),
            SqlValueView::Text(ACTIVE_STATE@),
        ],
        LedgerStatement::AddWithFamily { uid, family_id, date, ammount, comment } => seq![
            SqlValueView::Int(uid),
            SqlValueView::Int(family_id),
            SqlValueView::Time(date),
            SqlValueView::Int(ammount),
            SqlValueView::Text(comment@),
            SqlValueView::Now,
            SqlValueView::Now,
            SqlValueView::Text(ACTIVE_STATE@),
        ],
        LedgerStatement::Delete { id } => seq![SqlValueView::Int(id)],
        LedgerStatement::Get { id } => seq![SqlValueView::Int(id)],
        LedgerStatement::FamilyList { family_id, date_start, date_end, offset, limit } => seq![
            SqlValueView::Int(family_id),
            SqlValueView::Time(date_start),
            SqlValueView::Time(date_end),
            SqlValueView::Int(offset),
            SqlValueView::Int(limit),
        ],
        LedgerStatement::UserList { uid, date_start, date_end, offset, limit } => seq![
            SqlValueView::Int(uid),
            SqlValueView::Time(date_start),
            SqlValueView::Time(date_end),
            SqlValueView::Int(offset),
            SqlValueView::Int(limit),
        ],
    }
}

/// Every ledger statement binds its values in the order of the placeholders
/// of its SQL text: a page binds the owner, the start of the range, the end of
/// the range, the rows before the page and the page size; an insert binds the
/// entry's fields, the moment it runs as creation and change time, and the
/// state `active`.
pub proof fn law_ledger_binds_follow_the_placeholders(
    id: i64,
    uid: i64,
    family_id: i64,
    date: Instant,
    ammount: i64,
    comment: String,
    clazz_1: String,
    clazz_2: String,
    date_start: Instant,
    date_end: Instant,
    offset: i64,
    limit: i64,
)
    ensures
        ledger_binds(LedgerStatement::FamilyList { family_id, date_start, date_end, offset, limit }) =~= seq![
            SqlValueView::Int(family_id), SqlValueView::Time(date_start), SqlValueView::Time(date_end),
            SqlValueView::Int(offset), SqlValueView::Int(limit),
        ],
        ledger_binds(LedgerStatement::UserList { uid, date_start, date_end, offset, limit }) =~= seq![
            SqlValueView::Int(uid), SqlValueView::Time(date_start), SqlValueView::Time(date_end),
            SqlValueView::Int(offset), SqlValueView::Int(limit),
        ],
        ledger_binds(LedgerStatement::AddWithUid { uid, date, ammount, comment, clazz_1, clazz_2 }) =~= seq![
            SqlValueView::Int(uid), SqlValueView::Time(date), SqlValueView::Int(ammount), SqlValueView::Text(comment@),
            SqlValueView::Now, SqlValueView::Now, SqlValueView::Text(clazz_1@), SqlValueView::Text(clazz_2@),
            SqlValueView::Text("active"@),
        ],
        ledger_binds(LedgerStatement::AddWithFamily { uid, family_id, date, ammount, comment }) =~= seq![
            SqlValueView::Int(uid), SqlValueView::Int(family_id), SqlValueView::Time(date), SqlValueView::Int(ammount),
            SqlValueView::Text(comment@), SqlValueView::Now, SqlValueView::Now, SqlValueView::Text("active"@),
        ],
        ledger_binds(LedgerStatement::Delete { id }) =~= seq![SqlValueView::Int(id)],
        ledger_binds(LedgerStatement::Get { id }) =~= seq![SqlValueView::Int(id)],
{
    reveal_strlit("active");
}

impl LedgerStatement {
    /// The values the statement binds, in the order of its placeholders.
    pub fn binds(&self) -> (v: Vec<SqlValue>)
        ensures
            bound_views(v@) == ledger_binds(*self),
    {
        let mut v: Vec<SqlValue> = Vec::new();
        match self {
            LedgerStatement::AddWithUid { uid, date, ammount, comment, clazz_1, clazz_2 } => {
                v.push(SqlValue::Int(*uid));
                v.push(SqlValue::Time(*date));
                v.push(SqlValue::Int(*ammount));
                v.push(text_value(comment.as_str()));
                v.push(SqlValue::Now);
                v.push(SqlValue::Now);
                v.push(text_value(clazz_1.as_str()));
                v.push(text_value(clazz_2.as_str()));
                v.push(text_value(ACTIVE_STATE));
            },
            LedgerStatement::AddWithFamily { uid, family_id, date, ammount, comment } => {
                v.push(SqlValue::Int(*uid));
                v.push(SqlValue::Int(*family_id));
                v.push(SqlValue::Time(*date));
                v.push(SqlValue::Int(*ammount));
                v.push(text_value(comment.as_str()));
                v.push(SqlValue::Now);
                v.push(SqlValue::Now);
                v.push(text_value(ACTIVE_STATE));
            },
            LedgerStatement::Delete { id } => {
                v.push(SqlValue::Int(*id));
            },
            LedgerStatement::Get { id } => {
                v.push(SqlValue::Int(*id));
            },
            LedgerStatement::FamilyList { family_id, date_start, date_end, offset, limit } => {
                v.push(SqlValue::Int(*family_id));
                v.push(SqlValue::Time(*date_start));
                v.push(SqlValue::Time(*date_end));
                v.push(SqlValue::Int(*offset));
                v.push(SqlValue::Int(*limit));
            },
            LedgerStatement::UserList { uid, date_start, date_end, offset, limit } => {
                v.push(SqlValue::Int(*uid));
                v.push(SqlValue::Time(*date_start));
                v.push(SqlValue::Time(*date_end));
                v.push(SqlValue::Int(*offset));
                v.push(SqlValue::Int(*limit));
            },
        }
        assert(bound_views(v@) =~= ledger_binds(*self));
        v
    }

    /// The SQL text of the statement.
    pub fn sql(&self) -> (s: &'static str)
        ensures
            s@ == ledger_sql(*self),
    {
        match self {
            LedgerStatement::AddWithUid { .. } => ADD_LEDGER_WITH_UID_SQL,
            LedgerStatement::AddWithFamily { .. } => ADD_LEDGER_WITH_FAMILY_SQL,
            LedgerStatement::Delete { .. } => DELETE_LEDGER_SQL,
            LedgerStatement::Get { .. } => GET_LEDGER_SQL,
            LedgerStatement::FamilyList { .. } => FAMILY_LEDGER_LIST_SQL,
            LedgerStatement::UserList { .. } => USER_LEDGER_LIST_SQL,
        }
    }
}

/// The statement that reads page `pn` of size `ps` of a family's ledger
/// entries dated within a range.
pub fn family_ledger_page(family_id: i64, date_start: Instant, date_end: Instant, pn: i64, ps: i64) -> (s: LedgerStatement)
    requires
        pn > i64::MIN,
        i64::MIN <= (pn - 1) * ps <= i64::MAX,
    ensures
        s == (LedgerStatement::FamilyList { family_id, date_start, date_end, offset: ((pn - 1) * ps) as i64, limit: ps }),
{
    LedgerStatement::FamilyList { family_id, date_start, date_end, offset: page_offset(pn, ps), limit: ps }
}

/// The statement that reads page `pn` of size `ps` of a user's ledger entries
/// dated within a range.
pub fn user_ledger_page(uid: i64, date_start: Instant, date_end: Instant, pn: i64, ps: i64) -> (s: LedgerStatement)
    requires
        pn > i64::MIN,
        i64::MIN <= (pn - 1) * ps <= i64::MAX,
    ensures
        s == (LedgerStatement::UserList { uid, date_start, date_end, offset: ((pn - 1) * ps) as i64, limit: ps }),
{
    LedgerStatement::UserList { uid, date_start, date_end, offset: page_offset(pn, ps), limit: ps }
}

} // verus!
