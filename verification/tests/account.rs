use simplife::account::cache::{
    _family_id_key, _session_key, family_id_lookup, family_id_store, new_session, AfterRenew, AfterUid,
    SessionLookup, UserCache,
};
use simplife::account::config::Config;
use simplife::account::dto::{login_failed, not_login, GetUidReply, LoginReply, LoginReq};
use simplife::account::rpc::{
    check_access_key, family_reply, legacy_check_access_key, legacy_family_reply, legacy_uid_reply, rpc_result, RpcCode,
};
use simplife::account::service::{
    family_failure, legacy_login_body, uid_reply, AfterCached, AfterDb, AfterUser, FamilyLookup, LoginAttempt,
};
use simplife::account::store::{family_id_from_row, RowError, User, UserQuery};
use simplife::cache::RedisCommand;
use simplife::crypto::sha3_512;
use simplife::error::Error;
use simplife::sql::SqlValue;

#[test]
fn account_keys() {
    assert_eq!(_session_key("abc"), "SESSION:abc");
    assert_eq!(_family_id_key(&42), "FAMILY_ID:42");
    assert_eq!(_family_id_key(&-1), "FAMILY_ID:-1");
    assert_ne!(_family_id_key(&12), _family_id_key(&1));
}

#[test]
fn initial_config() {
    let c = Config::initial();
    assert_eq!(c.server.listen_ip, "127.0.0.1");
    assert_eq!(c.server.listen_port, 27001);
    assert_eq!(c.db.url, "");
    assert_eq!(c.db.max_connections, 5);
    assert_eq!(c.service.session_expired_time, 300);
}

#[test]
fn user_cache_keeps_its_connection() {
    let c = UserCache::new(7u8);
    assert_eq!(*c.redis(), 7u8);
}

#[test]
fn new_session_stores_uid_under_the_key() {
    let (key, cmd) = new_session(42, 300);
    assert_eq!(key.len(), 32);
    match &cmd {
        RedisCommand::SetEx { key: k, value, seconds } => {
            assert_eq!(*k, format!("SESSION:{}", key));
            assert_eq!(value, "42");
            assert_eq!(*seconds, 300);
        },
        _ => panic!("expected SETEX"),
    }
    assert_eq!(cmd.statement(), format!("SETEX SESSION:{} 300 42", key));
}

fn user(id: i64, password: &str) -> User {
    User { id, family_id: None, mobile: "13800000000".to_string(), password: password.to_string() }
}

#[test]
fn login_with_right_password() {
    let req = LoginReq { mobile: "13800000000".to_string(), password: "secret".to_string() };
    let (attempt, query) = LoginAttempt::start(&req);
    match &query {
        UserQuery::FindUserByMobile { mobile } => assert_eq!(mobile, "13800000000"),
        _ => panic!("expected a user query"),
    }
    assert_eq!(query.sql(), "select id, family_id, mobile, password, ctime, mtime from user where mobile=?");
    let stored = sha3_512("secret".to_string());
    match attempt.on_user::<()>(Ok(user(9, &stored)), 300) {
        AfterUser::StoreSession(pending, cmd) => {
            let reply = pending.on_stored::<()>(Ok(())).unwrap();
            assert_eq!(reply.uid, 9);
            assert_eq!(cmd.statement(), format!("SETEX SESSION:{} 300 9", reply.access_key));
        },
        AfterUser::Done(_) => panic!("login should go on"),
    }
}

#[test]
fn login_with_wrong_password_or_unknown_user() {
    let req = LoginReq { mobile: "1".to_string(), password: "secret".to_string() };
    let (attempt, _) = LoginAttempt::start(&req);
    match attempt.on_user::<()>(Ok(user(9, "secret")), 300) {
        AfterUser::Done(Error::ServiceError(code, msg)) => assert_eq!((code, msg), (-401, "用户名或密码错误")),
        _ => panic!("login should fail"),
    }
    let (attempt, _) = LoginAttempt::start(&req);
    match attempt.on_user::<&str>(Err("no row"), 300) {
        AfterUser::Done(Error::ServiceError(code, _)) => assert_eq!(code, -401),
        _ => panic!("login should fail"),
    }
}

#[test]
fn login_with_failed_session_store() {
    let req = LoginReq { mobile: "1".to_string(), password: "pw".to_string() };
    let (attempt, _) = LoginAttempt::start(&req);
    match attempt.on_user::<()>(Ok(user(3, &sha3_512("pw".to_string()))), 60) {
        AfterUser::StoreSession(pending, _) => {
            assert!(matches!(pending.on_stored::<&str>(Err("down")), Err(Error::NetWorkError)));
        },
        _ => panic!("login should go on"),
    }
}

#[test]
fn session_lookup_of_live_session() {
    let (lookup, cmd) = SessionLookup::start("k1");
    assert_eq!(cmd.statement(), "GET SESSION:k1");
    let refresh = match lookup.on_uid::<()>(Ok(Some(5)), 3600) {
        AfterUid::Renew(r, cmd) => {
            assert_eq!(cmd.statement(), "EXPIRE SESSION:k1 3600");
            r
        },
        AfterUid::Done(_) => panic!("session exists"),
    };
    let remaining = match refresh.on_renewed::<()>(Ok(())) {
        AfterRenew::AskRemaining(r, cmd) => {
            assert_eq!(cmd.statement(), "TTL SESSION:k1");
            r
        },
        AfterRenew::Done(_) => panic!("renewed"),
    };
    let outcome = remaining.on_remaining::<()>(Ok(120), 1_700_000_000);
    assert_eq!(outcome, Ok((Some(5), 1_700_000_120)));
    assert_eq!(uid_reply(outcome).unwrap(), GetUidReply { uid: 5, expires: 1_700_000_120 });
}

#[test]
fn session_lookup_of_missing_session() {
    let (lookup, _) = SessionLookup::start("nope");
    match lookup.on_uid::<()>(Ok(None), 3600) {
        AfterUid::Done(outcome) => {
            assert_eq!(outcome, Ok((None, 0)));
            match uid_reply(outcome) {
                Err(Error::ServiceError(code, msg)) => assert_eq!((code, msg), (-401, "用户未登录")),
                _ => panic!("not logged in"),
            }
        },
        AfterUid::Renew(..) => panic!("no session"),
    }
}

#[test]
fn session_lookup_failures() {
    let (lookup, _) = SessionLookup::start("k");
    match lookup.on_uid::<&str>(Err("down"), 10) {
        AfterUid::Done(outcome) => {
            assert_eq!(outcome, Err("down"));
            assert!(matches!(uid_reply(outcome), Err(Error::NetWorkError)));
        },
        _ => panic!("failed"),
    }
    let (lookup, _) = SessionLookup::start("k");
    let refresh = match lookup.on_uid::<&str>(Ok(Some(1)), 10) {
        AfterUid::Renew(r, _) => r,
        _ => panic!(),
    };
    match refresh.on_renewed::<&str>(Err("expire failed")) {
        AfterRenew::Done(outcome) => assert_eq!(outcome, Err("expire failed")),
        _ => panic!("failed"),
    }
}

#[test]
fn family_lookup_from_cache() {
    let (lookup, cmd) = FamilyLookup::start(&8);
    assert_eq!(cmd.statement(), "GET FAMILY_ID:8");
    assert!(matches!(lookup.on_cached::<()>(Ok(Some(77))), AfterCached::Found(77)));
}

#[test]
fn family_lookup_from_database() {
    let (lookup, _) = FamilyLookup::start(&8);
    let from_db = match lookup.on_cached::<&str>(Err("cache down")) {
        AfterCached::AskDb(next, q) => {
            assert!(matches!(q, UserQuery::FamilyIdByUid { uid: 8 }));
            assert_eq!(q.sql(), "select family_id from user where id=?");
            next
        },
        AfterCached::Found(_) => panic!("not cached"),
    };
    match from_db.on_db::<()>(Ok(None)) {
        AfterDb::Remember(r, cmd) => {
            assert_eq!(cmd.statement(), "SETEX FAMILY_ID:8 7200 -1");
            assert_eq!(r.on_remembered::<&str>(Err("ignored")), -1);
        },
        AfterDb::Failed(_) => panic!("db answered"),
    }
    let (lookup, _) = FamilyLookup::start(&8);
    let from_db = match lookup.on_cached::<()>(Ok(None)) {
        AfterCached::AskDb(next, _) => next,
        _ => panic!(),
    };
    match from_db.on_db::<&str>(Err("db down")) {
        AfterDb::Failed(e) => {
            assert_eq!(e, "db down");
            assert!(matches!(family_failure(e), Error::NetWorkError));
        },
        _ => panic!("db failed"),
    }
}

#[test]
fn family_cache_commands() {
    assert_eq!(family_id_lookup(&3).statement(), "GET FAMILY_ID:3");
    assert_eq!(family_id_store(&3, &11).statement(), "SETEX FAMILY_ID:3 7200 11");
}

#[test]
fn family_row_mapping() {
    assert_eq!(family_id_from_row::<&str>(Ok(Some(4))), Ok(Some(4)));
    assert_eq!(family_id_from_row::<&str>(Err(RowError::RowNotFound)), Ok(None));
    assert_eq!(family_id_from_row(Err(RowError::Other("x"))), Err("x"));
}

#[test]
fn service_errors() {
    assert!(matches!(login_failed(), Error::ServiceError(-401, "用户名或密码错误")));
    assert!(matches!(not_login(), Error::ServiceError(-401, "用户未登录")));
}

#[test]
fn rpc_answers() {
    let s = check_access_key("").unwrap();
    assert_eq!((s.code, s.message.as_str()), (RpcCode::InvalidArgument, "参数错误!"));
    assert!(check_access_key("k").is_none());
    let s = rpc_result::<i64>(Err(Error::NetWorkError)).unwrap_err();
    assert_eq!((s.code, s.message.as_str()), (RpcCode::Internal, "网络异常"));
    assert_eq!(rpc_result::<i64>(Ok(3)).unwrap(), 3);
    assert_eq!(family_reply(Ok(6)).unwrap().family_id, 6);
    let s = family_reply(Err(not_login())).unwrap_err();
    assert_eq!((s.code, s.message.as_str()), (RpcCode::Internal, "用户未登录"));
}

#[test]
fn legacy_rpc_answers() {
    let s = legacy_check_access_key("").unwrap();
    assert_eq!((s.code, s.message.as_str()), (RpcCode::InvalidArgument, "access_key不合法"));
    assert!(legacy_check_access_key("x").is_none());
    let s = legacy_uid_reply::<()>(Err(())).unwrap_err();
    assert_eq!((s.code, s.message.as_str()), (RpcCode::Internal, "redis异常"));
    let s = legacy_uid_reply::<()>(Ok((None, 0))).unwrap_err();
    assert_eq!((s.code, s.message.as_str()), (RpcCode::NotFound, "未登录"));
    assert_eq!(legacy_uid_reply::<()>(Ok((Some(2), 9))).unwrap(), GetUidReply { uid: 2, expires: 9 });
    assert_eq!(legacy_family_reply::<()>(Ok(-1)).unwrap().family_id, -1);
    let s = legacy_family_reply::<()>(Err(())).unwrap_err();
    assert_eq!((s.code, s.message.as_str()), (RpcCode::Internal, "db异常"));
}

#[test]
fn legacy_login_bodies() {
    let ok = legacy_login_body(Ok(LoginReply { uid: 1, access_key: "k".to_string() }));
    assert_eq!((ok.code, ok.message.as_deref()), (0, Some("success")));
    assert_eq!(ok.data.unwrap().access_key, "k");
    let net = legacy_login_body(Err(Error::NetWorkError));
    assert_eq!((net.code, net.message.as_deref()), (-500, Some("网络拥堵")));
    let bad = legacy_login_body(Err(login_failed()));
    assert_eq!((bad.code, bad.message.as_deref()), (-401, Some("用户名或密码错误")));
}

#[test]
fn negative_session_lifetime_is_passed_on() {
    let (lookup, _) = SessionLookup::start("k2");
    match lookup.on_uid::<()>(Ok(Some(5)), -5) {
        AfterUid::Renew(_, cmd) => {
            assert!(matches!(&cmd, RedisCommand::Expire { seconds: -5, .. }));
            assert_eq!(cmd.statement(), "EXPIRE SESSION:k2 -5");
        },
        AfterUid::Done(_) => panic!("session exists"),
    }
    let (lookup, _) = SessionLookup::start("k2");
    match lookup.on_uid::<()>(Ok(None), -5) {
        AfterUid::Done(outcome) => assert_eq!(outcome, Ok((None, 0))),
        _ => panic!("no session"),
    }
    let (lookup, _) = SessionLookup::start("k2");
    match lookup.on_uid::<&str>(Err("down"), -5) {
        AfterUid::Done(outcome) => assert_eq!(outcome, Err("down")),
        _ => panic!("lookup failed"),
    }
    let (key, cmd) = new_session(4, -1);
    assert_eq!(cmd.statement(), format!("SETEX SESSION:{} -1 4", key));
}

#[test]
fn login_refusal_with_negative_session_lifetime() {
    let req = LoginReq { mobile: "1".to_string(), password: "secret".to_string() };
    let (attempt, _) = LoginAttempt::start(&req);
    match attempt.on_user::<()>(Ok(user(9, "secret")), -1) {
        AfterUser::Done(Error::ServiceError(code, msg)) => assert_eq!((code, msg), (-401, "用户名或密码错误")),
        _ => panic!("login should fail"),
    }
}

#[test]
fn user_queries_bind_their_value() {
    let q = UserQuery::FindUserByMobile { mobile: "138".to_string() };
    assert_eq!(q.binds(), vec![SqlValue::Text("138".to_string())]);
    assert_eq!(UserQuery::FamilyIdByUid { uid: 7 }.binds(), vec![SqlValue::Int(7)]);
}
