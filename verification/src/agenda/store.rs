//! The agenda service's MySQL statements.
use vstd::prelude::*;
use crate::sql::{bound_views, text_value, SqlValue, SqlValueView};
use crate::time::Instant;

verus! {

/// An agenda row. Times are milliseconds since the epoch.
#[derive(Debug)]
pub struct AgendaRecord {
    pub id: i64,
    pub uid: i64,
    pub family_id: i64,
    pub title: String,
    pub content: String,
    pub state: String,
    pub ctime: i64,
    pub mtime: i64,
}

/// Inserts an agenda.
pub const ADD_AGENDA_SQL: &'static str = "insert into agenda (uid, family_id, title, content, state, ctime, mtime) values (?, ?, ?, ?, ?, ?, ?)";
/// Marks an agenda as deleted.
pub const DELETE_AGENDA_SQL: &'static str = "update agenda set state = 'deleted' where id = ?";
/// Reads one agenda.
pub const GET_AGENDA_SQL: &'static str = "select id, uid, family_id, title, content, state, ctime, mtime from agenda where id = ?";
/// Changes title and content of an agenda.
pub const UPDATE_AGENDA_SQL: &'static str = "update agenda set title=?, content=? where id = ?";
/// Reads a page of a family's active agendas, newest first.
pub const GET_AGENDA_LIST_SQL: &'static str = "select id, uid, agenda_id, family_id, title, content, state, ctime, mtime from agenda where family_id=? and mtime between ? and ? and state='active' order by ctime desc limit ?, ?";
/// Records a change of an agenda.
pub const ADD_AGENDA_LOG_SQL: &'static str = "insert into agenda_log (uid, agenda_id, family_id, title, content, state, ctime) values (?, ?, ?, ?, ?, ?, ?)";

/// State of an agenda that is in use.
pub const ACTIVE_STATE: &'static str = "active";
/// State of a deleted agenda.
pub const DELETED_STATE: &'static str = "deleted";

/// A statement of the agenda store with the values it binds, in order.
/// Statements that record a time bind the moment they run.
#[derive(Debug)]
pub enum AgendaStatement {
    /// Binds uid, family, title, content, `active`, now, now.
    Add { uid: i64, family_id: i64, title: String, content: String },
    /// Binds the id.
    Get { id: i64 },
    /// Binds the id.
    MarkDeleted { id: i64 },
    /// Binds title, content, id.
    Update { id: i64, title: String, content: String },
    /// Binds uid, agenda id, family, title, content, state, now.
    InsertLog { uid: i64, agenda_id: i64, family_id: i64, title: String, content: String, state: String },
    /// Binds family, range start, range end, offset, page size.
    List { family_id: i64, date_start: Instant, date_end: Instant, offset: i64, limit: i64 },
}

/// A statement with its texts as character sequences.
pub enum AgendaStatementView {
    Add { uid: i64, family_id: i64, title: Seq<char>, content: Seq<char> },
    Get { id: i64 },
    MarkDeleted { id: i64 },
    Update { id: i64, title: Seq<char>, content: Seq<char> },
    InsertLog { uid: i64, agenda_id: i64, family_id: i64, title: Seq<char>, content: Seq<char>, state: Seq<char> },
    List { family_id: i64, date_start: Instant, date_end: Instant, offset: i64, limit: i64 },
}

impl View for AgendaStatement {
    type V = AgendaStatementView;

    open spec fn view(&self) -> AgendaStatementView {
        match self {
            AgendaStatement::Add { uid, family_id, title, content } =>
                AgendaStatementView::Add { uid: *uid, family_id: *family_id, title: title@, content: content@ },
            AgendaStatement::Get { id } => AgendaStatementView::Get { id: *id },
            AgendaStatement::MarkDeleted { id } => AgendaStatementView::MarkDeleted { id: *id },
            AgendaStatement::Update { id, title, content } =>
                AgendaStatementView::Update { id: *id, title: title@, content: content@ },
            AgendaStatement::InsertLog { uid, agenda_id, family_id, title, content, state } =>
                AgendaStatementView::InsertLog {
                    uid: *uid,
                    agenda_id: *agenda_id,
                    family_id: *family_id,
                    title: title@,
                    content: content@,
                    state: state@,
                },
            AgendaStatement::List { family_id, date_start, date_end, offset, limit } =>
                AgendaStatementView::List {
                    family_id: *family_id,
                    date_start: *date_start,
                    date_end: *date_end,
                    offset: *offset,
                    limit: *limit,
                },
        }
    }
}

/// The SQL text of a statement.
pub open spec fn statement_sql(s: AgendaStatementView) -> Seq<char> {
    match s {
        AgendaStatementView::Add { .. } => ADD_AGENDA_SQL@,
        AgendaStatementView::Get { .. } => GET_AGENDA_SQL@,
        AgendaStatementView::MarkDeleted { .. } => DELETE_AGENDA_SQL@,
        AgendaStatementView::Update { .. } => UPDATE_AGENDA_SQL@,
        AgendaStatementView::InsertLog { .. } => ADD_AGENDA_LOG_SQL@,
        AgendaStatementView::List { .. } => GET_AGENDA_LIST_SQL@,
    }
}

/// The values a statement binds, in the order of its placeholders.
pub open spec fn agenda_binds(s: AgendaStatementView) -> Seq<SqlValueView> {
    match s {
        AgendaStatementView::Add { uid, family_id, title, content } => seq![
            SqlValueView::Int(uid),
            SqlValueView::Int(family_id),
            SqlValueView::Text(title),
            SqlValueView::Text(content),
            SqlValueView::Text(ACTIVE_STATE@),
            SqlValueView::Now,
            SqlValueView::Now,
        ],
        AgendaStatementView::Get { id } => seq![SqlValueView::Int(id)],
        AgendaStatementView::MarkDeleted { id } => seq![SqlValueView::Int(id)],
        AgendaStatementView::Update { id, title, content } => seq![
            SqlValueView::Text(title),
            SqlValueView::Text(content),
            SqlValueView::Int(id),
        ],
        AgendaStatementView::InsertLog { uid, agenda_id, family_id, title, content, state } => seq![
            SqlValueView::Int(uid),
            SqlValueView::Int(agenda_id),
            SqlValueView::Int(family_id),
            SqlValueView::Text(title),
            SqlValueView::Text(content),
            SqlValueView::Text(state),
            SqlValueView::Now,
        ],
        AgendaStatementView::List { family_id, date_start, date_end, offset, limit } => seq![
            SqlValueView::Int(family_id),
            SqlValueView::Time(date_start),
            SqlValueView::Time(date_end),
            SqlValueView::Int(offset),
            SqlValueView::Int(limit),
        ],
    }
}

/// Every agenda statement binds its values in the order of the placeholders
/// of its SQL text: an insert binds the caller, the family, the title, the
/// content, the state `active` and the moment it runs twice; an update binds
/// the new title, the new content and then the agenda's id; a log row binds
/// the caller, the agenda, its family, title, content and state, and the
/// moment it runs; a page binds the family, the start and the end of the
/// range, the rows before the page and the page size.
pub proof fn law_agenda_binds_follow_the_placeholders(
    id: i64,
    uid: i64,
    agenda_id: i64,
    family_id: i64,
    title: Seq<char>,
    content: Seq<char>,
    state: Seq<char>,
    date_start: Instant,
    date_end: Instant,
    offset: i64,
    limit: i64,
)
    ensures
        agenda_binds(AgendaStatementView::Add { uid, family_id, title, content }) =~= seq![
            SqlValueView::Int(uid), SqlValueView::Int(family_id), SqlValueView::Text(title), SqlValueView::Text(content),
            SqlValueView::Text("active"@), SqlValueView::Now, SqlValueView::Now,
        ],
        agenda_binds(AgendaStatementView::Update { id, title, content }) =~= seq![
            SqlValueView::Text(title), SqlValueView::Text(content), SqlValueView::Int(id),
        ],
        agenda_binds(AgendaStatementView::InsertLog { uid, agenda_id, family_id, title, content, state }) =~= seq![
            SqlValueView::Int(uid), SqlValueView::Int(agenda_id), SqlValueView::Int(family_id),
            SqlValueView::Text(title), SqlValueView::Text(content), SqlValueView::Text(state), SqlValueView::Now,
        ],
        agenda_binds(AgendaStatementView::List { family_id, date_start, date_end, offset, limit }) =~= seq![
            SqlValueView::Int(family_id), SqlValueView::Time(date_start), SqlValueView::Time(date_end),
            SqlValueView::Int(offset), SqlValueView::Int(limit),
        ],
        agenda_binds(AgendaStatementView::Get { id }) =~= seq![SqlValueView::Int(id)],
        agenda_binds(AgendaStatementView::MarkDeleted { id }) =~= seq![SqlValueView::Int(id)],
{
    reveal_strlit("active");
}

impl AgendaStatement {
    /// The values the statement binds, in the order of its placeholders.
    pub fn binds(&self) -> (v: Vec<SqlValue>)
        ensures
            bound_views(v@) == agenda_binds(self@),
    {
        let mut v: Vec<SqlValue> = Vec::new();
        match self {
            AgendaStatement::Add { uid, family_id, title, content } => {
                v.push(SqlValue::Int(*uid));
                v.push(SqlValue::Int(*family_id));
                v.push(text_value(title.as_str()));
                v.push(text_value(content.as_str()));
                v.push(text_value(ACTIVE_STATE));
                v.push(SqlValue::Now);
                v.push(SqlValue::Now);
            },
            AgendaStatement::Get { id } => {
                v.push(SqlValue::Int(*id));
            },
            AgendaStatement::MarkDeleted { id } => {
                v.push(SqlValue::Int(*id));
            },
            AgendaStatement::Update { id, title, content } => {
                v.push(text_value(title.as_str()));
                v.push(text_value(content.as_str()));
                v.push(SqlValue::Int(*id));
            },
            AgendaStatement::InsertLog { uid, agenda_id, family_id, title, content, state } => {
                v.push(SqlValue::Int(*uid));
                v.push(SqlValue::Int(*agenda_id));
                v.push(SqlValue::Int(*family_id));
                v.push(text_value(title.as_str()));
                v.push(text_value(content.as_str()));
                v.push(text_value(state.as_str()));
                v.push(SqlValue::Now);
            },
            AgendaStatement::List { family_id, date_start, date_end, offset, limit } => {
                v.push(SqlValue::Int(*family_id));
                v.push(SqlValue::Time(*date_start));
                v.push(SqlValue::Time(*date_end));
                v.push(SqlValue::Int(*offset));
                v.push(SqlValue::Int(*limit));
            },
        }
        assert(bound_views(v@) =~= agenda_binds(self@));
        v
    }

    /// The SQL text of the statement.
    pub fn sql(&self) -> (s: &'static str)
        ensures
            s@ == statement_sql(self@),
    {
        match self {
            AgendaStatement::Add { .. } => ADD_AGENDA_SQL,
            AgendaStatement::Get { .. } => GET_AGENDA_SQL,
            AgendaStatement::MarkDeleted { .. } => DELETE_AGENDA_SQL,
            AgendaStatement::Update { .. } => UPDATE_AGENDA_SQL,
            AgendaStatement::InsertLog { .. } => ADD_AGENDA_LOG_SQL,
            AgendaStatement::List { .. } => GET_AGENDA_LIST_SQL,
        }
    }
}

/// The number of rows before page `pn` (counted from 1) of size `ps`.
pub fn page_offset(pn: i64, ps: i64) -> (o: i64)
    requires
        pn > i64::MIN,
        i64::MIN <= (pn - 1) * ps <= i64::MAX,
    ensures
        o == (pn - 1) * ps,
{
    (pn - 1) * ps
}

/// The statement that reads page `pn` of size `ps` of a family's active
/// agendas changed within a range.
pub fn agenda_page(family_id: i64, date_start: Instant, date_end: Instant, pn: i64, ps: i64) -> (s: AgendaStatement)
    requires
        pn > i64::MIN,
        i64::MIN <= (pn - 1) * ps <= i64::MAX,
    ensures
        s@ == (AgendaStatementView::List { family_id, date_start, date_end, offset: ((pn - 1) * ps) as i64, limit: ps }),
{
    AgendaStatement::List { family_id, date_start, date_end, offset: page_offset(pn, ps), limit: ps }
}

} // verus!
