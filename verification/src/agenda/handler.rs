//! Decisions of the agenda endpoints: who may add, delete, update and list
//! the agendas of a family, and how the cached pages follow the changes.
use vstd::prelude::*;
use crate::agenda::cache::{drop_family_pages, family_agenda_key, PageSlot};
use crate::agenda::dto::{AddAgendaReq, DeleteAgendaReq, GetAgendaReq, UpdateAgendaReq};
use crate::agenda::store::{agenda_page, AgendaRecord, AgendaStatement, AgendaStatementView};
use crate::agenda::tx::{pending_action, AgendaTx, TxActionView, TxChange, TxStage};
use crate::cache::{RedisCommand, RedisCommandView};
use crate::response::Response;
use crate::time::{instant_of, timestamp_to_instant};

verus! {

/// Message for a caller that belongs to no family.
pub const NO_FAMILY: &'static str = "尚未加入家庭";

/// Message for an agenda that does not exist.
pub const NO_AGENDA: &'static str = "不存在此记录";

/// Message for malformed paging parameters.
pub const BAD_PAGE: &'static str = "参数错误";

/// The change a write endpoint asks for.
#[derive(Debug)]
pub enum AgendaChange {
    Add { title: String, content: String },
    Delete { id: i64 },
    Update { id: i64, title: String, content: String },
}

/// How the caller's family relates to the agenda being written.
pub enum Membership {
    /// The family could not be resolved.
    Unknown,
    /// The caller belongs to no family.
    NoFamily,
    /// The agenda belongs to another family.
    Forbidden,
    /// The caller may write within this family.
    Member(i64),
}

/// The caller's standing, given the family that owns the agenda (none for a
/// new agenda) and the resolution of the caller's family.
pub open spec fn membership<E>(owner: Option<i64>, family: Result<i64, E>) -> Membership {
    match family {
        Err(_) => Membership::Unknown,
        Ok(f) => if f <= 0 {
            Membership::NoFamily
        } else if owner matches Some(o) && o != f {
            Membership::Forbidden
        } else {
            Membership::Member(f)
        },
    }
}

/// A caller may write only within a family of its own, and only to agendas
/// of that family.
pub proof fn law_writes_stay_within_the_family<E>(owner: Option<i64>, family: Result<i64, E>, f: i64)
    requires
        membership(owner, family) == Membership::Member(f),
    ensures
        family == Ok::<i64, E>(f),
        f > 0,
        owner matches Some(o) ==> o == f,
{
}

/// The write a member's change becomes: a single insert for a new agenda, a
/// transaction for a deletion or an update.
#[derive(Debug)]
pub enum AgendaWrite {
    Insert(AgendaStatement),
    Transaction(TxChange),
}

/// The write for `change` by user `uid` in family `family_id`.
pub open spec fn write_for(change: AgendaChange, uid: i64, family_id: i64) -> AgendaWrite {
    match change {
        AgendaChange::Add { title, content } =>
            AgendaWrite::Insert(AgendaStatement::Add { uid, family_id, title, content }),
        AgendaChange::Delete { id } => AgendaWrite::Transaction(TxChange::Delete { id, uid }),
        AgendaChange::Update { id, title, content } =>
            AgendaWrite::Transaction(TxChange::Update { id, uid, title, content }),
    }
}

/// A member's write carries the request into the store unchanged: a new
/// agenda is inserted for the caller and the family with the request's title
/// and content; a deletion reads and marks deleted the requested agenda; an
/// update reads the requested agenda and sets its title to the request's
/// title and its content to the request's content; both log the caller.
pub proof fn law_member_writes_carry_the_request<E>(
    title: String,
    content: String,
    id: i64,
    uid: i64,
    f: i64,
    read: AgendaRecord,
)
    ensures
        write_for(AgendaChange::Add { title, content }, uid, f) matches AgendaWrite::Insert(s)
            && s@ == (AgendaStatementView::Add { uid, family_id: f, title: title@, content: content@ }),
        write_for(AgendaChange::Delete { id }, uid, f) matches AgendaWrite::Transaction(c)
            && pending_action(AgendaTx::<E> { change: c, stage: TxStage::Fetch }) == TxActionView::Run(AgendaStatementView::Get { id })
            && pending_action(AgendaTx::<E> { change: c, stage: TxStage::Change(read) })
                == TxActionView::Run(AgendaStatementView::MarkDeleted { id })
            && (pending_action(AgendaTx::<E> { change: c, stage: TxStage::Log(read) })
                matches TxActionView::Run(AgendaStatementView::InsertLog { uid: u, agenda_id, .. })
            && u == uid && agenda_id == id),
        write_for(AgendaChange::Update { id, title, content }, uid, f) matches AgendaWrite::Transaction(c)
            && pending_action(AgendaTx::<E> { change: c, stage: TxStage::Fetch }) == TxActionView::Run(AgendaStatementView::Get { id })
            && pending_action(AgendaTx::<E> { change: c, stage: TxStage::Change(read) })
                == TxActionView::Run(AgendaStatementView::Update { id, title: title@, content: content@ })
            && (pending_action(AgendaTx::<E> { change: c, stage: TxStage::Log(read) })
                matches TxActionView::Run(AgendaStatementView::InsertLog { uid: u, agenda_id, .. })
            && u == uid && agenda_id == id),
{
}

/// A write waiting for the agenda it changes.
pub struct WriteAwaitAgenda {
    change: AgendaChange,
    access_key: String,
}

/// A write waiting for the caller's user id.
pub struct WriteAwaitUid {
    change: AgendaChange,
    owner: Option<i64>,
}

/// A write waiting for the caller's family.
pub struct WriteAwaitFamily {
    change: AgendaChange,
    uid: i64,
    owner: Option<i64>,
}

/// A write waiting for the store.
pub struct WriteAwaitStore {
    family_id: i64,
}

/// A write waiting for the family's cached pages to be dropped.
pub struct WriteAwaitDrop {}

/// What a write does once the agenda was read.
pub enum AfterAgenda {
    Reply(Response<String>),
    /// The caller's user id must be resolved from the access key.
    ResolveUid(WriteAwaitUid, String),
}

/// What a write does once the caller's user id was resolved.
pub enum AfterWriteUid {
    Reply(Response<String>),
    /// The caller's family must be resolved.
    ResolveFamily(WriteAwaitFamily, i64),
}

/// What a write does once the caller's family was resolved.
pub enum AfterWriteFamily {
    Reply(Response<String>),
    Store(WriteAwaitStore, AgendaWrite),
}

/// What a write does once the store answered.
pub enum AfterStore {
    Reply(Response<String>),
    DropPages(WriteAwaitDrop, RedisCommand),
}

impl WriteAwaitAgenda {
    /// The change asked for.
    pub closed spec fn change(&self) -> AgendaChange {
        self.change
    }

    /// The caller's access key.
    pub closed spec fn access_key(&self) -> Seq<char> {
        self.access_key@
    }

    /// Continues with the agenda read: a failed read or a missing agenda ends
    /// the write; an existing one makes its family the owner to check against.
    pub fn on_agenda<E>(self, found: Result<Option<AgendaRecord>, E>) -> (r: AfterAgenda)
        ensures
            found is Err ==> (r matches AfterAgenda::Reply(b) && b.is_bare(-500, "网络拥堵"@)),
            found matches Ok(None) ==> (r matches AfterAgenda::Reply(b) && b.is_bare(-500, NO_AGENDA@)),
            found matches Ok(Some(a)) ==> (r matches AfterAgenda::ResolveUid(next, key)
                && next.change() == self.change() && next.owner() == Some(a.family_id)
                && key@ == self.access_key()),
    {
        match found {
            Err(_) => AfterAgenda::Reply(Response::network_error()),
            Ok(None) => AfterAgenda::Reply(Response::fail(-500, NO_AGENDA)),
            Ok(Some(a)) => AfterAgenda::ResolveUid(
                WriteAwaitUid { change: self.change, owner: Some(a.family_id) },
                self.access_key,
            ),
        }
    }
}

impl WriteAwaitUid {
    /// The change asked for.
    pub closed spec fn change(&self) -> AgendaChange {
        self.change
    }

    /// The family owning the agenda; none for a new agenda.
    pub closed spec fn owner(&self) -> Option<i64> {
        self.owner
    }

    /// Continues with the caller's user id; a failed resolution means the
    /// caller is not logged in.
    pub fn on_uid<E>(self, uid: Result<i64, E>) -> (r: AfterWriteUid)
        ensures
            uid is Err ==> (r matches AfterWriteUid::Reply(b) && b.is_bare(-401, "未登录"@)),
            uid matches Ok(u) ==> (r matches AfterWriteUid::ResolveFamily(next, asked)
                && asked == u && next.uid() == u && next.change() == self.change() && next.owner() == self.owner()),
    {
        match uid {
            Err(_) => AfterWriteUid::Reply(Response::not_login()),
            Ok(u) => AfterWriteUid::ResolveFamily(WriteAwaitFamily { change: self.change, uid: u, owner: self.owner }, u),
        }
    }
}

impl WriteAwaitFamily {
    /// The change asked for.
    pub closed spec fn change(&self) -> AgendaChange {
        self.change
    }

    /// The caller's user id.
    pub closed spec fn uid(&self) -> i64 {
        self.uid
    }

    /// The family owning the agenda; none for a new agenda.
    pub closed spec fn owner(&self) -> Option<i64> {
        self.owner
    }

    /// Continues with the caller's family: only a member writes; the others
    /// get a network error, a missing-family failure or a refusal.
    pub fn on_family<E>(self, family: Result<i64, E>) -> (r: AfterWriteFamily)
        ensures
            membership(self.owner(), family) is Unknown ==> (r matches AfterWriteFamily::Reply(b) && b.is_bare(-500, "网络拥堵"@)),
            membership(self.owner(), family) is NoFamily ==> (r matches AfterWriteFamily::Reply(b) && b.is_bare(-500, NO_FAMILY@)),
            membership(self.owner(), family) is Forbidden ==> (r matches AfterWriteFamily::Reply(b) && b.is_bare(-403, "无权操作!"@)),
            membership(self.owner(), family) matches Membership::Member(f) ==> (r matches AfterWriteFamily::Store(next, w)
                && next.family_id() == f && w == write_for(self.change(), self.uid(), f)),
    {
        match family {
            Err(_) => AfterWriteFamily::Reply(Response::network_error()),
            Ok(f) => {
                if f <= 0 {
                    AfterWriteFamily::Reply(Response::fail(-500, NO_FAMILY))
                } else {
                    let forbidden = match self.owner {
                        Some(o) => o != f,
                        None => false,
                    };
                    if forbidden {
                        AfterWriteFamily::Reply(Response::forbidden())
                    } else {
                        let uid = self.uid;
                        let w = match self.change {
                            AgendaChange::Add { title, content } =>
                                AgendaWrite::Insert(AgendaStatement::Add { uid, family_id: f, title, content }),
                            AgendaChange::Delete { id } => AgendaWrite::Transaction(TxChange::Delete { id, uid }),
                            AgendaChange::Update { id, title, content } =>
                                AgendaWrite::Transaction(TxChange::Update { id, uid, title, content }),
                        };
                        AfterWriteFamily::Store(WriteAwaitStore { family_id: f }, w)
                    }
                }
            },
        }
    }
}

impl WriteAwaitStore {
    /// The family written to.
    pub closed spec fn family_id(&self) -> i64 {
        self.family_id
    }

    /// Continues with the store's answer: a stored write drops every cached
    /// page of the family; a failed one is a network error.
    pub fn on_stored<E>(self, stored: Result<u64, E>) -> (r: AfterStore)
        ensures
            stored is Err ==> (r matches AfterStore::Reply(b) && b.is_bare(-500, "网络拥堵"@)),
            stored is Ok ==> (r matches AfterStore::DropPages(_, cmd)
                && cmd@ == (RedisCommandView::Del { key: family_agenda_key(self.family_id() as int) })),
    {
        match stored {
            Err(_) => AfterStore::Reply(Response::network_error()),
            Ok(_) => AfterStore::DropPages(WriteAwaitDrop {}, drop_family_pages(&self.family_id)),
        }
    }
}

impl WriteAwaitDrop {
    /// Ends the write with success, whether or not the pages could be dropped.
    pub fn on_dropped<E>(self, dropped: Result<(), E>) -> (r: Response<String>)
        ensures
            r.is_bare(0, "success"@),
    {
        Response::success()
    }
}

/// Starts adding an agenda: the caller's user id is resolved first.
pub fn start_add(req: AddAgendaReq) -> (r: (WriteAwaitUid, String))
    ensures
        r.0.change() == (AgendaChange::Add { title: req.title, content: req.content }),
        r.0.owner() is None,
        r.1 == req.access_key,
{
    (WriteAwaitUid { change: AgendaChange::Add { title: req.title, content: req.content }, owner: None }, req.access_key)
}

/// Starts deleting an agenda: the agenda is read first.
pub fn start_delete(req: DeleteAgendaReq) -> (r: (WriteAwaitAgenda, AgendaStatement))
    ensures
        r.0.change() == (AgendaChange::Delete { id: req.id }),
        r.0.access_key() == req.access_key@,
        r.1@ == (AgendaStatementView::Get { id: req.id }),
{
    (WriteAwaitAgenda { change: AgendaChange::Delete { id: req.id }, access_key: req.access_key }, AgendaStatement::Get { id: req.id })
}

/// Starts updating an agenda: the agenda is read first.
pub fn start_update(req: UpdateAgendaReq) -> (r: (WriteAwaitAgenda, AgendaStatement))
    ensures
        r.0.change() == (AgendaChange::Update { id: req.id, title: req.title, content: req.content }),
        r.0.access_key() == req.access_key@,
        r.1@ == (AgendaStatementView::Get { id: req.id }),
{
    let id = req.id;
    (
        WriteAwaitAgenda { change: AgendaChange::Update { id, title: req.title, content: req.content }, access_key: req.access_key },
        AgendaStatement::Get { id },
    )
}

/// The answer of the listing endpoint.
#[derive(Debug)]
pub enum ListReply {
    /// A failure body.
    Failure(Response<String>),
    /// A success body: the page, when it came from the cache.
    Listing(Response<Option<Vec<AgendaRecord>>>),
}

/// A listing waiting for the caller's user id.
pub struct ListAwaitUid {
    req: GetAgendaReq,
}

/// A listing waiting for the caller's family.
pub struct ListAwaitFamily {
    req: GetAgendaReq,
}

/// A listing waiting for the cached page.
pub struct ListAwaitPage {
    slot: PageSlot,
}

/// A listing waiting for the page from the database.
pub struct ListAwaitRows {
    slot: PageSlot,
}

/// A listing waiting for the page to be cached.
pub struct ListAwaitCaching {}

/// Whether page number and page size are both positive.
pub open spec fn valid_page(req: GetAgendaReq) -> bool {
    req.pn > 0 && req.ps > 0
}

/// The cache slot of a request's page within a family.
pub open spec fn slot_of(req: GetAgendaReq, family_id: i64) -> PageSlot {
    PageSlot { family_id, date_start: req.date_start, date_end: req.date_end, pn: req.pn, ps: req.ps }
}

/// A listing reads and caches the page the request asks for, within the
/// caller's family: the range from the request's start to its end, and the
/// request's page number and size.
pub proof fn law_list_slot_is_the_requested_page(req: GetAgendaReq, f: i64)
    ensures
        slot_of(req, f).family_id == f,
        slot_of(req, f).date_start == req.date_start,
        slot_of(req, f).date_end == req.date_end,
        slot_of(req, f).pn == req.pn,
        slot_of(req, f).ps == req.ps,
        valid_page(req) <==> (req.pn > 0 && req.ps > 0),
{
}

/// How a listing starts.
pub enum ListStart {
    Reply(ListReply),
    ResolveUid(ListAwaitUid, String),
}

/// What a listing does once the caller's user id was resolved.
pub enum AfterListUid {
    Reply(ListReply),
    ResolveFamily(ListAwaitFamily, i64),
}

/// What a listing does once the caller's family was resolved.
pub enum AfterListFamily {
    Reply(ListReply),
    /// The cached page of the slot must be read.
    ReadPage(ListAwaitPage, PageSlot),
}

/// What a listing does once the cache answered.
pub enum AfterPage {
    Reply(ListReply),
    /// The page must be read from the database.
    Query(ListAwaitRows, AgendaStatement),
}

/// What a listing does once the database answered.
pub enum AfterRows {
    Reply(ListReply),
    /// The rows must be cached in the slot.
    CachePage(ListAwaitCaching, PageSlot, Vec<AgendaRecord>),
}

/// Starts a listing: page number and size must be positive.
pub fn start_list(req: GetAgendaReq) -> (r: ListStart)
    ensures
        !valid_page(req) ==> (r matches ListStart::Reply(ListReply::Failure(b)) && b.is_bare(-400, BAD_PAGE@)),
        valid_page(req) ==> (r matches ListStart::ResolveUid(next, key) && next.req() == req && key@ == req.access_key@),
{
    if req.pn <= 0 || req.ps <= 0 {
        ListStart::Reply(ListReply::Failure(Response::bad_request(BAD_PAGE)))
    } else {
        let key = req.access_key.clone();
        ListStart::ResolveUid(ListAwaitUid { req }, key)
    }
}

impl ListAwaitUid {
    #[verifier::type_invariant]
    spec fn page_is_valid(self) -> bool {
        valid_page(self.req)
    }

    /// The request.
    pub closed spec fn req(&self) -> GetAgendaReq {
        self.req
    }

    /// Continues with the caller's user id; a failed resolution means the
    /// caller is not logged in.
    pub fn on_uid<E>(self, uid: Result<i64, E>) -> (r: AfterListUid)
        ensures
            uid is Err ==> (r matches AfterListUid::Reply(ListReply::Failure(b)) && b.is_bare(-401, "未登录"@)),
            uid matches Ok(u) ==> (r matches AfterListUid::ResolveFamily(next, asked) && asked == u && next.req() == self.req()),
    {
        proof {
            use_type_invariant(&self);
        }
        match uid {
            Err(_) => AfterListUid::Reply(ListReply::Failure(Response::not_login())),
            Ok(u) => AfterListUid::ResolveFamily(ListAwaitFamily { req: self.req }, u),
        }
    }
}

impl ListAwaitFamily {
    #[verifier::type_invariant]
    spec fn page_is_valid(self) -> bool {
        valid_page(self.req)
    }

    /// The request.
    pub closed spec fn req(&self) -> GetAgendaReq {
        self.req
    }

    /// Continues with the caller's family: a member's page is looked up in
    /// the cache first.
    pub fn on_family<E>(self, family: Result<i64, E>) -> (r: AfterListFamily)
        ensures
            family is Err ==> (r matches AfterListFamily::Reply(ListReply::Failure(b)) && b.is_bare(-500, "网络拥堵"@)),
            (family matches Ok(f) && f <= 0) ==> (r matches AfterListFamily::Reply(ListReply::Failure(b)) && b.is_bare(-500, NO_FAMILY@)),
            family matches Ok(f) ==> (f > 0 ==> (r matches AfterListFamily::ReadPage(next, slot)
                && slot == slot_of(self.req(), f) && next.slot() == slot)),
    {
        proof {
            use_type_invariant(&self);
        }
        match family {
            Err(_) => AfterListFamily::Reply(ListReply::Failure(Response::network_error())),
            Ok(f) => {
                if f <= 0 {
                    AfterListFamily::Reply(ListReply::Failure(Response::fail(-500, NO_FAMILY)))
                } else {
                    let slot = PageSlot {
                        family_id: f,
                        date_start: self.req.date_start,
                        date_end: self.req.date_end,
                        pn: self.req.pn,
                        ps: self.req.ps,
                    };
                    AfterListFamily::ReadPage(ListAwaitPage { slot }, slot)
                }
            },
        }
    }
}

impl ListAwaitPage {
    #[verifier::type_invariant]
    spec fn page_is_valid(self) -> bool {
        self.slot.pn > 0 && self.slot.ps > 0
    }

    /// The page slot.
    pub closed spec fn slot(&self) -> PageSlot {
        self.slot
    }

    /// Whether the offset of the page fits in an `i64`.
    pub open spec fn offset_fits_spec(&self) -> bool {
        (self.slot().pn - 1) * self.slot().ps <= i64::MAX
    }

    /// Whether the offset of the page fits in an `i64`.
    pub fn offset_fits(&self) -> (b: bool)
        ensures
            b == self.offset_fits_spec(),
    {
        proof {
            use_type_invariant(self);
        }
        let pn1 = self.slot.pn - 1;
        match pn1.checked_mul(self.slot.ps) {
            Some(_) => true,
            None => {
                proof {
                    assert(0 <= pn1 * self.slot.ps) by (nonlinear_arith)
                        requires pn1 >= 0, self.slot.ps > 0;
                }
                false
            },
        }
    }

    /// Continues with the cached page: a cached page is the answer; a missing
    /// page or a cache failure sends the listing to the database for the
    /// page's rows changed within the requested range, whose offset must then
    /// fit in an `i64`.
    pub fn on_page<E>(self, cached: Result<Option<Vec<AgendaRecord>>, E>) -> (r: AfterPage)
        requires
            !(cached matches Ok(Some(_))) ==> self.offset_fits_spec(),
        ensures
            cached matches Ok(Some(page)) ==> (r matches AfterPage::Reply(ListReply::Listing(b))
                && b.data == Some(Some(page)) && b.message_is("success"@) && b.code == 0),
            !(cached matches Ok(Some(_))) ==> (r matches AfterPage::Query(next, q) && next.slot() == self.slot()
                && q@ == (AgendaStatementView::List {
                    family_id: self.slot().family_id,
                    date_start: instant_of(self.slot().date_start as int),
                    date_end: instant_of(self.slot().date_end as int),
                    offset: ((self.slot().pn - 1) * self.slot().ps) as i64,
                    limit: self.slot().ps,
                })),
    {
        match cached {
            Ok(Some(page)) => AfterPage::Reply(ListReply::Listing(Response::data(Some(page)))),
            _ => {
                proof {
                    use_type_invariant(&self);
                }
                let s = self.slot;
                proof {
                    assert(0 <= (s.pn - 1) * s.ps) by (nonlinear_arith)
                        requires s.pn > 0, s.ps > 0;
                }
                let q = agenda_page(s.family_id, timestamp_to_instant(s.date_start), timestamp_to_instant(s.date_end), s.pn, s.ps);
                AfterPage::Query(ListAwaitRows { slot: s }, q)
            },
        }
    }
}

impl ListAwaitRows {
    /// The page slot.
    pub closed spec fn slot(&self) -> PageSlot {
        self.slot
    }

    /// Continues with the rows: they are cached in the slot they were asked
    /// for; a failed query is a network error.
    pub fn on_rows<E>(self, rows: Result<Vec<AgendaRecord>, E>) -> (r: AfterRows)
        ensures
            rows is Err ==> (r matches AfterRows::Reply(ListReply::Failure(b)) && b.is_bare(-500, "网络拥堵"@)),
            rows matches Ok(v) ==> (r matches AfterRows::CachePage(_, slot, page) && slot == self.slot() && page == v),
    {
        match rows {
            Err(_) => AfterRows::Reply(ListReply::Failure(Response::network_error())),
            Ok(v) => AfterRows::CachePage(ListAwaitCaching {}, self.slot, v),
        }
    }
}

impl ListAwaitCaching {
    /// Ends a listing served by the database: the reply is a success that
    /// carries no page, whether or not caching worked.
    pub fn on_cached<E>(self, cached: Result<(), E>) -> (r: ListReply)
        ensures
            r matches ListReply::Listing(b) && b.data == Some(None::<Vec<AgendaRecord>>) && b.message_is("success"@) && b.code == 0,
    {
        ListReply::Listing(Response::data(None))
    }
}

} // verus!
