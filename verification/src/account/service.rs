//! Decisions of the account service: login, session lookup and family lookup.
use vstd::prelude::*;
use crate::account::cache::{
    family_id_lookup, family_id_key, family_id_store, family_id_store_command, new_session,
    session_key, session_store_command, SessionOutcome,
};
use crate::account::dto::{is_service_error, login_failed, not_login, GetUidReply, LoginReply, LoginReq};
use crate::account::store::{User, UserQuery};
use crate::cache::{command_key, RedisCommand, RedisCommandView};
use crate::crypto::{is_access_key, password_digest, sha3_512};
use crate::error::Error;
use crate::response::Response;

verus! {

/// Whether a looked-up user exists and its stored password equals `hash`.
pub open spec fn login_accepted<E>(found: Result<User, E>, hash: Seq<char>) -> bool {
    found matches Ok(u) && u.password@ == hash
}

/// A login opens a session exactly when the user exists and its stored
/// password is the digest of the password given: a missing user or any other
/// password is refused, and the session belongs to the user found.
pub proof fn law_login_needs_the_password_digest<E>(password: Seq<char>, found: Result<User, E>, other: Seq<char>)
    ensures
        login_accepted(found, password_digest(password))
            <==> (found matches Ok(u) && u.password@ == password_digest(password)),
        found is Err ==> !login_accepted(found, password_digest(password)),
        (found matches Ok(u) && u.password@ == password_digest(password) && password_digest(other) != password_digest(password))
            ==> !login_accepted(found, password_digest(other)),
{
}

/// A login waiting for the user row of the mobile number.
pub struct LoginAttempt {
    password_hash: String,
}

/// A login whose password matched, waiting for its session to be stored.
pub struct PendingSession {
    uid: i64,
    access_key: String,
}

/// What a login does once the user row is known.
pub enum AfterUser {
    /// The login failed with this error.
    Done(Error),
    /// The session must be stored with the command; then the login succeeds.
    StoreSession(PendingSession, RedisCommand),
}

impl LoginAttempt {
    /// The digest the stored password must equal.
    pub closed spec fn password_hash(&self) -> Seq<char> {
        self.password_hash@
    }

    /// Starts a login: the password's digest is computed and the user with the
    /// mobile number is looked up.
    pub fn start(req: &LoginReq) -> (r: (LoginAttempt, UserQuery))
        ensures
            r.0.password_hash() == password_digest(req.password@),
            r.1 matches UserQuery::FindUserByMobile { mobile } && mobile@ == req.mobile@,
    {
        let password_hash = sha3_512(req.password.clone());
        (LoginAttempt { password_hash }, UserQuery::FindUserByMobile { mobile: req.mobile.clone() })
    }

    /// Continues with the user row: a matching password opens a session that
    /// lives `session_expired_time` seconds; a missing user, a failed lookup or
    /// a wrong password fail the login.
    pub fn on_user<E>(self, found: Result<User, E>, session_expired_time: i32) -> (r: AfterUser)
        ensures
            login_accepted(found, self.password_hash()) <==> r is StoreSession,
            r matches AfterUser::StoreSession(p, cmd) ==> {
                &&& found matches Ok(u) && p.uid() == u.id && u.password@ == self.password_hash()
                &&& is_access_key(p.access_key())
                &&& cmd@ == session_store_command(p.uid(), p.access_key(), session_expired_time)
            },
            r matches AfterUser::Done(e) ==> is_service_error(e, -401, "用户名或密码错误"@),
    {
        match found {
            Ok(user) => {
                if user.password == self.password_hash {
                    let (access_key, cmd) = new_session(user.id, session_expired_time);
                    AfterUser::StoreSession(PendingSession { uid: user.id, access_key }, cmd)
                } else {
                    AfterUser::Done(login_failed())
                }
            },
            Err(_) => AfterUser::Done(login_failed()),
        }
    }
}

impl PendingSession {
    /// The user logging in.
    pub closed spec fn uid(&self) -> i64 {
        self.uid
    }

    /// The access key of the new session.
    pub closed spec fn access_key(&self) -> Seq<char> {
        self.access_key@
    }

    /// Ends the login: a stored session is handed to the client, a failed
    /// store is a network error.
    pub fn on_stored<E>(self, stored: Result<(), E>) -> (r: Result<LoginReply, Error>)
        ensures
            stored is Ok ==> (r matches Ok(reply) && reply.uid == self.uid() && reply.access_key@ == self.access_key()),
            stored is Err ==> r matches Err(Error::NetWorkError),
    {
        match stored {
            Ok(_) => Ok(LoginReply { uid: self.uid, access_key: self.access_key }),
            Err(_) => Err(Error::NetWorkError),
        }
    }
}

/// The access key handed to a client names the session that was stored for
/// the user.
pub proof fn law_issued_key_names_stored_session(uid: i64, access_key: Seq<char>, ttl: i32)
    ensures
        command_key(session_store_command(uid, access_key, ttl)) == session_key(access_key),
        session_store_command(uid, access_key, ttl) matches RedisCommandView::SetEx { value, seconds, .. }
            && value == crate::text::decimal(uid as int) && seconds == ttl as i64,
{
}

/// The answer to "who owns this access key": a session lookup that failed is
/// a network error, a missing session means the caller is not logged in.
pub fn uid_reply<E>(outcome: SessionOutcome<E>) -> (r: Result<GetUidReply, Error>)
    ensures
        match outcome {
            Err(_) => r matches Err(Error::NetWorkError),
            Ok((Some(uid), expires)) => r == Ok::<GetUidReply, Error>(GetUidReply { uid, expires }),
            Ok((None, _)) => r matches Err(e) && is_service_error(e, -401, "用户未登录"@),
        },
{
    match outcome {
        Err(_) => Err(Error::NetWorkError),
        Ok((Some(uid), expires)) => Ok(GetUidReply { uid, expires }),
        Ok((None, _)) => Err(not_login()),
    }
}

/// The body of the older login endpoint: the login, or the failure body for
/// a failed session store or for a rejected login.
pub fn legacy_login_body(r: Result<LoginReply, Error>) -> (b: Response<LoginReply>)
    ensures
        r matches Ok(reply) ==> (b.data == Some(reply) && b.message_is("success"@) && b.code == 0),
        r matches Err(Error::NetWorkError) ==> b.is_bare(-500, "网络拥堵"@),
        (r is Err && !(r matches Err(Error::NetWorkError))) ==> b.is_bare(-401, "用户名或密码错误"@),
{
    match r {
        Ok(reply) => Response::data(reply),
        Err(Error::NetWorkError) => Response { data: None, message: Some("网络拥堵".to_owned()), code: -500 },
        Err(_) => Response { data: None, message: Some("用户名或密码错误".to_owned()), code: -401 },
    }
}

/// A family lookup waiting for the remembered family id.
pub struct FamilyLookup {
    uid: i64,
}

/// A family lookup waiting for the database.
pub struct FamilyFromDb {
    uid: i64,
}

/// A family lookup waiting for the family id to be remembered.
pub struct FamilyRemember {
    family_id: i64,
}

/// What a family lookup does once the cache answered.
pub enum AfterCached {
    /// The remembered family id.
    Found(i64),
    /// The database must be asked.
    AskDb(FamilyFromDb, UserQuery),
}

/// What a family lookup does once the database answered.
pub enum AfterDb<E> {
    /// The database failed.
    Failed(E),
    /// The family id must be remembered with the command; then it is the answer.
    Remember(FamilyRemember, RedisCommand),
}

impl FamilyLookup {
    /// The user whose family is looked up.
    pub closed spec fn uid(&self) -> i64 {
        self.uid
    }

    /// Starts the lookup of the family of `uid` in the cache.
    pub fn start(uid: &i64) -> (r: (FamilyLookup, RedisCommand))
        ensures
            r.0.uid() == *uid,
            r.1@ == (RedisCommandView::Get { key: family_id_key(*uid as int) }),
    {
        (FamilyLookup { uid: *uid }, family_id_lookup(uid))
    }

    /// Continues with the cache's answer: a remembered id is the answer; a
    /// missing entry or a cache failure sends the lookup to the database.
    pub fn on_cached<E>(self, cached: Result<Option<i64>, E>) -> (r: AfterCached)
        ensures
            match cached {
                Ok(Some(f)) => r == AfterCached::Found(f),
                _ => r matches AfterCached::AskDb(next, q) && next.uid() == self.uid()
                    && q == (UserQuery::FamilyIdByUid { uid: self.uid() }),
            },
    {
        match cached {
            Ok(Some(f)) => AfterCached::Found(f),
            _ => AfterCached::AskDb(FamilyFromDb { uid: self.uid }, UserQuery::FamilyIdByUid { uid: self.uid }),
        }
    }
}

/// The family id a database answer stands for: `-1` for a user without one.
pub open spec fn family_or_none(f: Option<i64>) -> i64 {
    match f {
        Some(v) => v,
        None => -1i64,
    }
}

/// A family id found in the database is the answer and is remembered, under
/// the user's family-id key, as that very id; a user without a family is
/// answered and remembered as `-1`. Different database answers give different
/// answers.
pub proof fn law_family_from_db_is_the_answer(uid: i64, v: i64, w: Option<i64>)
    ensures
        family_or_none(Some(v)) == v,
        family_or_none(None) == -1,
        family_id_store_command(uid as int, family_or_none(Some(v)))
            == (RedisCommandView::SetEx { key: family_id_key(uid as int), value: crate::text::decimal(v as int), seconds: 7200 }),
        (w != Some(v) && v != -1) ==> family_or_none(w) != v,
{
}

impl FamilyFromDb {
    /// The user whose family is looked up.
    pub closed spec fn uid(&self) -> i64 {
        self.uid
    }

    /// Continues with the database's answer, which is remembered for two hours.
    pub fn on_db<E>(self, found: Result<Option<i64>, E>) -> (r: AfterDb<E>)
        ensures
            match found {
                Err(e) => r == AfterDb::Failed(e),
                Ok(f) => r matches AfterDb::Remember(next, cmd)
                    && next.family_id() == family_or_none(f)
                    && cmd@ == family_id_store_command(self.uid() as int, family_or_none(f)),
            },
            found matches Ok(Some(v)) ==> (r matches AfterDb::Remember(next, _) && next.family_id() == v),
            found matches Ok(None) ==> (r matches AfterDb::Remember(next, _) && next.family_id() == -1),
    {
        match found {
            Err(e) => AfterDb::Failed(e),
            Ok(f) => {
                let family_id = match f {
                    Some(v) => v,
                    None => -1,
                };
                let cmd = family_id_store(&self.uid, &family_id);
                AfterDb::Remember(FamilyRemember { family_id }, cmd)
            },
        }
    }
}

impl FamilyRemember {
    /// The family id to answer with.
    pub closed spec fn family_id(&self) -> i64 {
        self.family_id
    }

    /// Ends the lookup; whether remembering worked does not change the answer.
    pub fn on_remembered<E>(self, remembered: Result<(), E>) -> (f: i64)
        ensures
            f == self.family_id(),
    {
        self.family_id
    }
}

/// A family lookup whose database failed is a network error to the service's
/// callers.
pub fn family_failure<E>(e: E) -> (r: Error)
    ensures
        r is NetWorkError,
{
    Error::NetWorkError
}

} // verus!
