use simplife::agenda::cache::{
    _agenda_hset_field, _family_agenda_key, drop_family_pages, AfterExists, PageRead, PageSlot, PageWrite, ScheduleCache,
};
use simplife::agenda::dto::{AddAgendaReq, DeleteAgendaReq, GetAgendaReq, GetScheduleReq, UpdateAgendaReq};
use simplife::agenda::error::Error as AgendaError;
use simplife::agenda::handler::{
    start_add, start_delete, start_list, start_update, AfterAgenda, AfterListFamily, AfterListUid, AfterPage,
    AfterRows, AfterStore, AfterWriteFamily, AfterWriteUid, AgendaWrite, ListReply, ListStart, WriteAwaitFamily,
};
use simplife::agenda::ledger::{family_ledger_page, user_ledger_page, LedgerStatement};
use simplife::agenda::schedule::{AfterScheduleFamily, ScheduleAwaitFamily, ScheduleQuery};
use simplife::agenda::store::{page_offset, AgendaRecord, AgendaStatement};
use simplife::agenda::tx::{AgendaTx, TxAction, TxChange, TxEvent, TxStage};
use simplife::error::Error;
use simplife::response::Response;
use simplife::cache::RedisCommand;
use simplife::sql::SqlValue;
use simplife::time::Instant;

fn record(id: i64, family_id: i64) -> AgendaRecord {
    AgendaRecord {
        id,
        uid: 1,
        family_id,
        title: "t".to_string(),
        content: "c".to_string(),
        state: "active".to_string(),
        ctime: 0,
        mtime: 0,
    }
}

fn bare(r: &Response<String>) -> (i32, String) {
    assert!(r.data.is_none());
    (r.code, r.message.clone().unwrap())
}

#[test]
fn agenda_cache_keys() {
    assert_eq!(_family_agenda_key(&12), "AGENDA:FAMILY:12");
    assert_eq!(_agenda_hset_field(&1, &2, &3, &4), "DATE_1_2_PN_3_PS_4");
    assert_eq!(_agenda_hset_field(&-1, &20, &1, &10), "DATE_-1_20_PN_1_PS_10");
    assert_ne!(_agenda_hset_field(&1, &23, &4, &5), _agenda_hset_field(&12, &3, &4, &5));
}

#[test]
fn schedule_cache_keeps_its_connection() {
    let c = ScheduleCache::new("conn");
    assert_eq!(*c.redis(), "conn");
}

#[test]
fn agenda_errors() {
    let cases = vec![
        (AgendaError::NetWorkError, 500u16, "网络拥堵!"),
        (AgendaError::ServerError("x".to_string()), 500, "服务器错误! x"),
        (AgendaError::NotLogin, 401, "未登录!"),
        (AgendaError::GetParamFailed, 400, "参数不合法!"),
        (AgendaError::NoLedger, 400, "不存在此记录!"),
        (AgendaError::Forbidden, 403, "不允许操作!"),
        (AgendaError::NoFamily, 403, "family不存在!"),
    ];
    for (e, status, text) in cases {
        assert_eq!(e.message(), text);
        let r = e.into_reply();
        assert_eq!(r.status, status);
        assert_eq!(bare(&r.body), (status as i32, text.to_string()));
    }
}

fn slot() -> PageSlot {
    PageSlot { family_id: 5, date_start: 1, date_end: 2, pn: 1, ps: 10 }
}

#[test]
fn cached_page_read() {
    let (read, cmd) = PageRead::start(slot());
    assert_eq!(cmd.statement(), "HEXISTS AGENDA:FAMILY:5 DATE_1_2_PN_1_PS_10");
    let fetch = match read.on_exists::<()>(Ok(1)) {
        AfterExists::Fetch(f, cmd) => {
            assert_eq!(cmd.statement(), "HGET AGENDA:FAMILY:5 DATE_1_2_PN_1_PS_10");
            f
        },
        AfterExists::Done(_) => panic!("cached"),
    };
    assert_eq!(fetch.on_value::<()>(Ok("[]".to_string())), Ok(Some("[]".to_string())));
    let (read, _) = PageRead::start(slot());
    assert!(matches!(read.on_exists::<()>(Ok(0)), AfterExists::Done(Ok(None))));
    let (read, _) = PageRead::start(slot());
    assert!(matches!(read.on_exists::<&str>(Err("down")), AfterExists::Done(Err("down"))));
}

#[test]
fn cached_page_write() {
    let (write, cmd) = PageWrite::start(slot(), "[]".to_string());
    assert_eq!(cmd.statement(), "HSET AGENDA:FAMILY:5 DATE_1_2_PN_1_PS_10 []");
    assert_eq!(write.on_written::<()>(Ok(())).unwrap().statement(), "EXPIRE AGENDA:FAMILY:5 3600");
    let (write, _) = PageWrite::start(slot(), "[]".to_string());
    assert!(matches!(write.on_written::<&str>(Err("x")), Err("x")));
    assert_eq!(drop_family_pages(&5).statement(), "DEL AGENDA:FAMILY:5");
}

fn delete_family_step(id: i64, owner: i64) -> WriteAwaitFamily {
    let (awaiting, q) = start_delete(DeleteAgendaReq { access_key: "key".to_string(), id });
    assert!(matches!(q, AgendaStatement::Get { id: got } if got == id));
    let awaiting_uid = match awaiting.on_agenda::<()>(Ok(Some(record(id, owner)))) {
        AfterAgenda::ResolveUid(next, key) => {
            assert_eq!(key, "key");
            next
        },
        AfterAgenda::Reply(_) => panic!("agenda exists"),
    };
    match awaiting_uid.on_uid::<()>(Ok(21)) {
        AfterWriteUid::ResolveFamily(next, uid) => {
            assert_eq!(uid, 21);
            next
        },
        AfterWriteUid::Reply(_) => panic!("uid resolved"),
    }
}

#[test]
fn member_deletes_agenda_and_drops_pages() {
    let awaiting_family = delete_family_step(4, 9);
    let store = match awaiting_family.on_family::<()>(Ok(9)) {
        AfterWriteFamily::Store(next, AgendaWrite::Transaction(TxChange::Delete { id, uid })) => {
            assert_eq!((id, uid), (4, 21));
            next
        },
        _ => panic!("member may delete"),
    };
    let drop = match store.on_stored::<()>(Ok(1)) {
        AfterStore::DropPages(next, cmd) => {
            assert_eq!(cmd.statement(), "DEL AGENDA:FAMILY:9");
            next
        },
        AfterStore::Reply(_) => panic!("stored"),
    };
    assert_eq!(bare(&drop.on_dropped::<&str>(Err("ignored"))), (0, "success".to_string()));
}

#[test]
fn other_family_is_forbidden() {
    let awaiting_family = delete_family_step(4, 9);
    match awaiting_family.on_family::<()>(Ok(10)) {
        AfterWriteFamily::Reply(r) => assert_eq!(bare(&r), (-403, "无权操作!".to_string())),
        _ => panic!("forbidden"),
    }
}

#[test]
fn caller_without_family() {
    let awaiting_family = delete_family_step(4, 9);
    match awaiting_family.on_family::<()>(Ok(0)) {
        AfterWriteFamily::Reply(r) => assert_eq!(bare(&r), (-500, "尚未加入家庭".to_string())),
        _ => panic!("no family"),
    }
    let awaiting_family = delete_family_step(4, 9);
    match awaiting_family.on_family::<&str>(Err("rpc")) {
        AfterWriteFamily::Reply(r) => assert_eq!(bare(&r), (-500, "网络拥堵".to_string())),
        _ => panic!("network"),
    }
}

#[test]
fn missing_agenda_and_failed_reads() {
    let (awaiting, _) = start_update(UpdateAgendaReq {
        access_key: "k".to_string(),
        id: 3,
        title: "a".to_string(),
        content: "b".to_string(),
    });
    match awaiting.on_agenda::<()>(Ok(None)) {
        AfterAgenda::Reply(r) => assert_eq!(bare(&r), (-500, "不存在此记录".to_string())),
        _ => panic!("missing"),
    }
    let (awaiting, _) = start_delete(DeleteAgendaReq { access_key: "k".to_string(), id: 3 });
    match awaiting.on_agenda::<&str>(Err("db")) {
        AfterAgenda::Reply(r) => assert_eq!(bare(&r), (-500, "网络拥堵".to_string())),
        _ => panic!("db failure"),
    }
}

#[test]
fn add_agenda_flow() {
    let (awaiting_uid, key) = start_add(AddAgendaReq {
        title: "T".to_string(),
        content: "C".to_string(),
        access_key: "ak".to_string(),
    });
    assert_eq!(key, "ak");
    match start_add(AddAgendaReq { title: String::new(), content: String::new(), access_key: String::new() })
        .0
        .on_uid::<()>(Err(()))
    {
        AfterWriteUid::Reply(r) => assert_eq!(bare(&r), (-401, "未登录".to_string())),
        _ => panic!("not logged in"),
    }
    let awaiting_family = match awaiting_uid.on_uid::<()>(Ok(2)) {
        AfterWriteUid::ResolveFamily(n, _) => n,
        _ => panic!(),
    };
    match awaiting_family.on_family::<()>(Ok(6)) {
        AfterWriteFamily::Store(store, AgendaWrite::Insert(stmt)) => {
            assert_eq!(stmt.sql(), "insert into agenda (uid, family_id, title, content, state, ctime, mtime) values (?, ?, ?, ?, ?, ?, ?)");
            match &stmt {
                AgendaStatement::Add { uid, family_id, title, content } => {
                    assert_eq!((*uid, *family_id, title.as_str(), content.as_str()), (2, 6, "T", "C"));
                },
                _ => panic!("insert"),
            }
            match store.on_stored::<&str>(Err("db")) {
                AfterStore::Reply(r) => assert_eq!(bare(&r), (-500, "网络拥堵".to_string())),
                _ => panic!("failed store"),
            }
        },
        _ => panic!("may add"),
    }
}

fn list_req(pn: i64, ps: i64) -> GetAgendaReq {
    GetAgendaReq { pn, ps, date_start: 1697698540, date_end: 1697698600, access_key: "ak".to_string() }
}

#[test]
fn list_rejects_bad_paging() {
    for (pn, ps) in [(0, 10), (1, 0), (-1, -1)] {
        match start_list(list_req(pn, ps)) {
            ListStart::Reply(ListReply::Failure(r)) => assert_eq!(bare(&r), (-400, "参数错误".to_string())),
            _ => panic!("bad paging"),
        }
    }
}

#[test]
fn list_from_cache_and_from_database() {
    let awaiting_uid = match start_list(list_req(2, 10)) {
        ListStart::ResolveUid(n, key) => {
            assert_eq!(key, "ak");
            n
        },
        _ => panic!(),
    };
    let awaiting_family = match awaiting_uid.on_uid::<()>(Ok(3)) {
        AfterListUid::ResolveFamily(n, uid) => {
            assert_eq!(uid, 3);
            n
        },
        _ => panic!(),
    };
    let awaiting_page = match awaiting_family.on_family::<()>(Ok(8)) {
        AfterListFamily::ReadPage(n, s) => {
            assert_eq!(s, PageSlot { family_id: 8, date_start: 1697698540, date_end: 1697698600, pn: 2, ps: 10 });
            n
        },
        _ => panic!(),
    };
    assert!(awaiting_page.offset_fits());
    let awaiting_rows = match awaiting_page.on_page::<()>(Ok(None)) {
        AfterPage::Query(n, q) => {
            assert_eq!(q.sql(), "select id, uid, agenda_id, family_id, title, content, state, ctime, mtime from agenda where family_id=? and mtime between ? and ? and state='active' order by ctime desc limit ?, ?");
            match q {
                AgendaStatement::List { family_id, date_start, date_end, offset, limit } => {
                    assert_eq!((family_id, offset, limit), (8, 10, 10));
                    assert_eq!(date_start, Instant::Seconds(1697698540));
                    assert_eq!(date_end, Instant::Seconds(1697698600));
                },
                _ => panic!("list query"),
            }
            n
        },
        _ => panic!("cache missed"),
    };
    let caching = match awaiting_rows.on_rows::<()>(Ok(vec![record(1, 8)])) {
        AfterRows::CachePage(c, s, page) => {
            assert_eq!(s.pn, 2);
            assert_eq!(page.len(), 1);
            c
        },
        _ => panic!(),
    };
    match caching.on_cached::<()>(Ok(())) {
        ListReply::Listing(r) => {
            assert!(matches!(r.data, Some(None)));
            assert_eq!((r.code, r.message.as_deref()), (0, Some("success")));
        },
        _ => panic!(),
    }
}

#[test]
fn list_served_from_cache() {
    let page = match start_list(list_req(1, 10)) {
        ListStart::ResolveUid(n, _) => match n.on_uid::<()>(Ok(3)) {
            AfterListUid::ResolveFamily(n, _) => match n.on_family::<()>(Ok(8)) {
                AfterListFamily::ReadPage(n, _) => n,
                _ => panic!(),
            },
            _ => panic!(),
        },
        _ => panic!(),
    };
    match page.on_page::<()>(Ok(Some(vec![record(1, 8), record(2, 8)]))) {
        AfterPage::Reply(ListReply::Listing(r)) => assert_eq!(r.data.unwrap().unwrap().len(), 2),
        _ => panic!("cache hit"),
    }
}

#[test]
fn list_failures() {
    match start_list(list_req(1, 1)) {
        ListStart::ResolveUid(n, _) => match n.on_uid::<()>(Err(())) {
            AfterListUid::Reply(ListReply::Failure(r)) => assert_eq!(bare(&r), (-401, "未登录".to_string())),
            _ => panic!(),
        },
        _ => panic!(),
    }
    match start_list(list_req(1, 1)) {
        ListStart::ResolveUid(n, _) => match n.on_uid::<()>(Ok(1)) {
            AfterListUid::ResolveFamily(n, _) => match n.on_family::<()>(Ok(-1)) {
                AfterListFamily::Reply(ListReply::Failure(r)) => assert_eq!(bare(&r), (-500, "尚未加入家庭".to_string())),
                _ => panic!(),
            },
            _ => panic!(),
        },
        _ => panic!(),
    }
}

fn run_tx(mut tx: AgendaTx<&'static str>, events: Vec<TxEvent<&'static str>>) -> (AgendaTx<&'static str>, Vec<String>) {
    let mut seen = Vec::new();
    for ev in events {
        let (next, action) = tx.step(ev);
        seen.push(match action {
            TxAction::Begin => "begin".to_string(),
            TxAction::Run(s) => s.sql().to_string(),
            TxAction::Commit => "commit".to_string(),
            TxAction::Rollback => "rollback".to_string(),
            TxAction::Finish => "finish".to_string(),
        });
        tx = next;
    }
    (tx, seen)
}

#[test]
fn delete_transaction_commits_and_logs() {
    let (tx, first) = AgendaTx::<&'static str>::delete_agenda(4, 21);
    assert!(matches!(first, TxAction::Begin));
    let mut a = record(4, 9);
    a.title = "old title".to_string();
    let (tx, seen) = run_tx(tx, vec![TxEvent::Began(Ok(())), TxEvent::Fetched(Ok(a))]);
    assert_eq!(seen, vec![
        "select id, uid, family_id, title, content, state, ctime, mtime from agenda where id = ?".to_string(),
        "update agenda set state = 'deleted' where id = ?".to_string(),
    ]);
    let (tx, log) = tx.step(TxEvent::Ran(Ok(0)));
    match &log {
        TxAction::Run(AgendaStatement::InsertLog { uid, agenda_id, family_id, title, content, state }) => {
            assert_eq!((*uid, *agenda_id, *family_id), (21, 4, 9));
            assert_eq!((title.as_str(), content.as_str(), state.as_str()), ("old title", "c", "deleted"));
        },
        _ => panic!("log insert"),
    }
    let (tx, seen) = run_tx(tx, vec![TxEvent::Ran(Ok(77)), TxEvent::Committed(Ok(()))]);
    assert_eq!(seen, vec!["commit".to_string(), "finish".to_string()]);
    assert_eq!(tx.outcome(), Some(Ok(77)));
}

#[test]
fn update_transaction_logs_previous_state() {
    let (tx, _) = AgendaTx::<&'static str>::update_agenda(4, 21, "new".to_string(), "body".to_string());
    let mut a = record(4, 9);
    a.state = "active".to_string();
    let (tx, seen) = run_tx(tx, vec![TxEvent::Began(Ok(())), TxEvent::Fetched(Ok(a))]);
    assert_eq!(seen[1], "update agenda set title=?, content=? where id = ?");
    match tx.pending() {
        TxAction::Run(AgendaStatement::Update { id, title, content }) => {
            assert_eq!((id, title.as_str(), content.as_str()), (4, "new", "body"));
        },
        _ => panic!("update"),
    }
    let (_, log) = tx.step(TxEvent::Ran(Ok(0)));
    match log {
        TxAction::Run(AgendaStatement::InsertLog { state, title, .. }) => {
            assert_eq!((state.as_str(), title.as_str()), ("active", "t"));
        },
        _ => panic!("log"),
    }
}

#[test]
fn failed_transaction_rolls_back() {
    let (tx, _) = AgendaTx::<&'static str>::delete_agenda(1, 1);
    let (tx, seen) = run_tx(tx, vec![TxEvent::Began(Ok(())), TxEvent::Fetched(Err("no row"))]);
    assert_eq!(seen[1], "rollback");
    let (tx, _) = run_tx(tx, vec![TxEvent::RolledBack(Ok(()))]);
    assert_eq!(tx.outcome(), Some(Err("no row")));

    let (tx, _) = AgendaTx::<&'static str>::delete_agenda(1, 1);
    let (tx, seen) = run_tx(tx, vec![
        TxEvent::Began(Ok(())),
        TxEvent::Fetched(Ok(record(1, 1))),
        TxEvent::Ran(Err("update failed")),
        TxEvent::RolledBack(Err("rollback failed")),
    ]);
    assert_eq!(seen[2], "rollback");
    assert_eq!(tx.outcome(), Some(Err("rollback failed")));

    let (tx, _) = AgendaTx::<&'static str>::delete_agenda(1, 1);
    let (tx, _) = run_tx(tx, vec![TxEvent::Began(Err("no connection"))]);
    assert_eq!(tx.outcome(), Some(Err("no connection")));

    let (tx, _) = AgendaTx::<&'static str>::delete_agenda(1, 1);
    let (tx, seen) = run_tx(tx, vec![
        TxEvent::Began(Ok(())),
        TxEvent::Fetched(Ok(record(1, 1))),
        TxEvent::Ran(Ok(0)),
        TxEvent::Ran(Ok(5)),
        TxEvent::Committed(Err("commit failed")),
    ]);
    assert_eq!(seen[3], "commit");
    assert_eq!(tx.outcome(), Some(Err("commit failed")));
}

#[test]
fn unexpected_answers_repeat_the_request() {
    let (tx, _) = AgendaTx::<&'static str>::delete_agenda(1, 1);
    let (tx, seen) = run_tx(tx, vec![TxEvent::Committed(Ok(()))]);
    assert_eq!(seen, vec!["begin".to_string()]);
    assert!(matches!(tx.stage, TxStage::Begin));
    assert!(tx.outcome().is_none());
}

#[test]
fn schedule_listing() {
    let (awaiting, uid) = ScheduleAwaitFamily::start(3, GetScheduleReq { start_time: 1697698540, end_time: 1697698540123 });
    assert_eq!(uid, 3);
    match awaiting.on_family::<()>(Ok(9)) {
        AfterScheduleFamily::Query(rows, q) => {
            assert_eq!(q, ScheduleQuery {
                uid: 3,
                family_id: 9,
                starts_before: Instant::Millis(1697698540123),
                ends_after: Instant::Seconds(1697698540),
            });
            assert_eq!(rows.on_rows::<u8, ()>(Ok(vec![1, 2])).unwrap(), vec![1, 2]);
        },
        _ => panic!(),
    }
    let (awaiting, _) = ScheduleAwaitFamily::start(3, GetScheduleReq { start_time: 0, end_time: 0 });
    assert!(matches!(awaiting.on_family::<()>(Err(())), AfterScheduleFamily::Failed(Error::NetWorkError)));
    let (awaiting, _) = ScheduleAwaitFamily::start(3, GetScheduleReq { start_time: 0, end_time: 0 });
    match awaiting.on_family::<()>(Ok(1)) {
        AfterScheduleFamily::Query(rows, _) => match rows.on_rows::<u8, &str>(Err("db")) {
            Err(Error::ServerError(m)) => assert_eq!(m, "网络拥堵!"),
            _ => panic!(),
        },
        _ => panic!(),
    }
}

#[test]
fn ledger_statements() {
    let s = family_ledger_page(5, Instant::Seconds(1), Instant::Seconds(2), 3, 20);
    assert!(matches!(s, LedgerStatement::FamilyList { family_id: 5, offset: 40, limit: 20, .. }));
    assert_eq!(s.sql(), "select * from ledger where family_id=? and date between ? and ? and state='active' order by date desc limit ?, ?");
    let s = user_ledger_page(7, Instant::Millis(0), Instant::Millis(0), 1, 10);
    assert!(matches!(s, LedgerStatement::UserList { uid: 7, offset: 0, limit: 10, .. }));
    assert_eq!(LedgerStatement::Delete { id: 1 }.sql(), "update ledger set state = 'deleted' where id = ?");
    assert_eq!(LedgerStatement::Get { id: 1 }.sql(), "select * from ledger where id=?");
    assert_eq!(page_offset(1, 10), 0);
    assert_eq!(page_offset(4, 25), 75);
}

#[test]
fn cached_page_with_huge_paging_is_served() {
    let page = match start_list(list_req(i64::MAX, i64::MAX)) {
        ListStart::ResolveUid(n, _) => match n.on_uid::<()>(Ok(3)) {
            AfterListUid::ResolveFamily(n, _) => match n.on_family::<()>(Ok(8)) {
                AfterListFamily::ReadPage(n, _) => n,
                _ => panic!(),
            },
            _ => panic!(),
        },
        _ => panic!(),
    };
    assert!(!page.offset_fits());
    match page.on_page::<()>(Ok(Some(vec![record(1, 8)]))) {
        AfterPage::Reply(ListReply::Listing(r)) => {
            assert_eq!(r.code, 0);
            assert_eq!(r.data.unwrap().unwrap().len(), 1);
        },
        _ => panic!("cache hit"),
    }
}

#[test]
fn agenda_statements_bind_in_placeholder_order() {
    let add = AgendaStatement::Add { uid: 1, family_id: 2, title: "t".to_string(), content: "c".to_string() };
    assert_eq!(
        add.binds(),
        vec![
            SqlValue::Int(1),
            SqlValue::Int(2),
            SqlValue::Text("t".to_string()),
            SqlValue::Text("c".to_string()),
            SqlValue::Text("active".to_string()),
            SqlValue::Now,
            SqlValue::Now,
        ]
    );
    let update = AgendaStatement::Update { id: 5, title: "a".to_string(), content: "b".to_string() };
    assert_eq!(update.binds(), vec![SqlValue::Text("a".to_string()), SqlValue::Text("b".to_string()), SqlValue::Int(5)]);
    let log = AgendaStatement::InsertLog {
        uid: 1,
        agenda_id: 4,
        family_id: 2,
        title: "t".to_string(),
        content: "c".to_string(),
        state: "deleted".to_string(),
    };
    assert_eq!(
        log.binds(),
        vec![
            SqlValue::Int(1),
            SqlValue::Int(4),
            SqlValue::Int(2),
            SqlValue::Text("t".to_string()),
            SqlValue::Text("c".to_string()),
            SqlValue::Text("deleted".to_string()),
            SqlValue::Now,
        ]
    );
    let list = AgendaStatement::List {
        family_id: 8,
        date_start: Instant::Seconds(1),
        date_end: Instant::Millis(2),
        offset: 10,
        limit: 10,
    };
    assert_eq!(
        list.binds(),
        vec![
            SqlValue::Int(8),
            SqlValue::Time(Instant::Seconds(1)),
            SqlValue::Time(Instant::Millis(2)),
            SqlValue::Int(10),
            SqlValue::Int(10),
        ]
    );
    assert_eq!(AgendaStatement::Get { id: 3 }.binds(), vec![SqlValue::Int(3)]);
    assert_eq!(AgendaStatement::MarkDeleted { id: 3 }.binds(), vec![SqlValue::Int(3)]);
}

#[test]
fn ledger_and_schedule_statements_bind_in_placeholder_order() {
    let add = LedgerStatement::AddWithUid {
        uid: 1,
        date: Instant::Seconds(9),
        ammount: 100,
        comment: "x".to_string(),
        clazz_1: "a".to_string(),
        clazz_2: "b".to_string(),
    };
    assert_eq!(
        add.binds(),
        vec![
            SqlValue::Int(1),
            SqlValue::Time(Instant::Seconds(9)),
            SqlValue::Int(100),
            SqlValue::Text("x".to_string()),
            SqlValue::Now,
            SqlValue::Now,
            SqlValue::Text("a".to_string()),
            SqlValue::Text("b".to_string()),
            SqlValue::Text("active".to_string()),
        ]
    );
    let add = LedgerStatement::AddWithFamily { uid: 1, family_id: 2, date: Instant::Millis(9), ammount: -5, comment: "y".to_string() };
    assert_eq!(
        add.binds(),
        vec![
            SqlValue::Int(1),
            SqlValue::Int(2),
            SqlValue::Time(Instant::Millis(9)),
            SqlValue::Int(-5),
            SqlValue::Text("y".to_string()),
            SqlValue::Now,
            SqlValue::Now,
            SqlValue::Text("active".to_string()),
        ]
    );
    let page = user_ledger_page(7, Instant::Seconds(1), Instant::Seconds(2), 3, 10);
    assert_eq!(
        page.binds(),
        vec![
            SqlValue::Int(7),
            SqlValue::Time(Instant::Seconds(1)),
            SqlValue::Time(Instant::Seconds(2)),
            SqlValue::Int(20),
            SqlValue::Int(10),
        ]
    );
    let q = ScheduleQuery { uid: 1, family_id: 2, starts_before: Instant::Seconds(5), ends_after: Instant::Seconds(3) };
    assert_eq!(
        q.binds(),
        vec![SqlValue::Int(1), SqlValue::Int(2), SqlValue::Time(Instant::Seconds(5)), SqlValue::Time(Instant::Seconds(3))]
    );
}

#[test]
fn dropping_a_family_reaches_only_its_pages() {
    let mine = PageSlot { family_id: 8, date_start: 1, date_end: 2, pn: 1, ps: 10 };
    let other = PageSlot { family_id: 9, ..mine };
    let drop = drop_family_pages(&8);
    assert_eq!(drop.key(), PageRead::start(mine).1.key());
    assert_ne!(drop.key(), PageRead::start(other).1.key());
}

#[test]
fn a_written_page_is_read_from_the_same_entry() {
    let slot = PageSlot { family_id: 8, date_start: 1, date_end: 2, pn: 3, ps: 10 };
    let (_, write) = PageWrite::start(slot, "[]".to_string());
    let (_, read) = PageRead::start(slot);
    match (&write, &read) {
        (RedisCommand::HSet { key: wk, field: wf, .. }, RedisCommand::HExists { key: rk, field: rf }) => {
            assert_eq!((wk, wf), (rk, rf));
        },
        _ => panic!("expected HSET and HEXISTS"),
    }
    let (_, other) = PageRead::start(PageSlot { pn: 4, ..slot });
    match (&read, &other) {
        (RedisCommand::HExists { field: a, .. }, RedisCommand::HExists { field: b, .. }) => assert_ne!(a, b),
        _ => panic!("expected HEXISTS"),
    }
}
