//! The account service's Redis entries: sessions and remembered family ids.
use vstd::prelude::*;
use crate::cache::{RedisCommand, RedisCommandView, command_key};
use crate::crypto::{is_access_key, new_access_key};
use crate::text::{decimal, i64_to_decimal, lemma_decimal_injective, lemma_prefix_cancel, push_decimal};

verus! {

/// The Redis key of the session whose access key is `id`.
pub open spec fn session_key(id: Seq<char>) -> Seq<char> {
    "SESSION:"@ + id
}

/// The Redis key under which the family of user `uid` is remembered.
pub open spec fn family_id_key(uid: int) -> Seq<char> {
    "FAMILY_ID:"@ + decimal(uid)
}

/// Seconds a remembered family id lives.
pub const FAMILY_ID_TTL: i64 = 7200;

/// The Redis key of a session.
pub fn _session_key(id: &str) -> (k: String)
    ensures
        k@ == session_key(id@),
{
    let mut k = "SESSION:".to_owned();
    k.append(id);
    k
}

/// The Redis key of a user's remembered family id.
pub fn _family_id_key(uid: &i64) -> (k: String)
    ensures
        k@ == family_id_key(*uid as int),
{
    let mut k = "FAMILY_ID:".to_owned();
    push_decimal(&mut k, *uid);
    k
}

/// Different access keys name different sessions.
pub proof fn law_session_keys_distinct(a: Seq<char>, b: Seq<char>)
    requires
        a != b,
    ensures
        session_key(a) != session_key(b),
{
    if session_key(a) == session_key(b) {
        lemma_prefix_cancel("SESSION:"@, a, b);
    }
}

/// Different users have different family-id keys.
pub proof fn law_family_id_keys_distinct(a: int, b: int)
    requires
        a != b,
    ensures
        family_id_key(a) != family_id_key(b),
{
    if family_id_key(a) == family_id_key(b) {
        lemma_prefix_cancel("FAMILY_ID:"@, decimal(a), decimal(b));
        lemma_decimal_injective(a, b);
    }
}

/// A session key never coincides with a family-id key.
pub proof fn law_session_and_family_keys_disjoint(id: Seq<char>, uid: int)
    ensures
        session_key(id) != family_id_key(uid),
{
    reveal_strlit("SESSION:");
    reveal_strlit("FAMILY_ID:");
    assert(session_key(id)[0] == 'S');
    assert(family_id_key(uid)[0] == 'F');
}

/// The cache of the account service, over a Redis connection handle `R`.
#[derive(Clone)]
pub struct UserCache<R> {
    redis: R,
}

impl<R> UserCache<R> {
    /// The connection handle the cache uses.
    pub closed spec fn handle(&self) -> R {
        self.redis
    }

    /// A cache over the given connection.
    pub fn new(redis: R) -> (c: UserCache<R>)
        ensures
            c.handle() == redis,
    {
        UserCache { redis }
    }

    /// The connection to send the commands to.
    pub fn redis(&self) -> (r: &R)
        ensures
            *r == self.handle(),
    {
        &self.redis
    }
}

/// The command that stores a session for `uid` under `access_key`.
pub open spec fn session_store_command(uid: i64, access_key: Seq<char>, ttl: i32) -> RedisCommandView {
    RedisCommandView::SetEx { key: session_key(access_key), value: decimal(uid as int), seconds: ttl as i64 }
}

/// Opens a session for `uid`: a fresh access key and the command that stores
/// the session under it for `session_expired_time` seconds.
pub fn new_session(uid: i64, session_expired_time: i32) -> (r: (String, RedisCommand))
    ensures
        is_access_key(r.0@),
        r.1@ == session_store_command(uid, r.0@, session_expired_time),
{
    let access_key = new_access_key();
    let key = _session_key(access_key.as_str());
    let value = i64_to_decimal(uid);
    (access_key, RedisCommand::SetEx { key, value, seconds: session_expired_time as i64 })
}

/// A session lookup waiting for the user id stored under the session key.
pub struct SessionLookup {
    key: String,
}

/// A session lookup waiting for the session's lifetime to be renewed.
pub struct SessionRefresh {
    key: String,
    uid: i64,
}

/// A session lookup waiting for the remaining lifetime of the session.
pub struct SessionRemaining {
    uid: i64,
}

/// The outcome of a session lookup: the user, if the session exists, and the
/// time it expires (`0` when it does not exist).
pub type SessionOutcome<E> = Result<(Option<i64>, i64), E>;

/// What a session lookup does after the user id was read.
pub enum AfterUid<E> {
    Done(SessionOutcome<E>),
    Renew(SessionRefresh, RedisCommand),
}

/// What a session lookup does after the lifetime was renewed.
pub enum AfterRenew<E> {
    Done(SessionOutcome<E>),
    AskRemaining(SessionRemaining, RedisCommand),
}

impl SessionLookup {
    /// The session key looked up.
    pub closed spec fn key(&self) -> Seq<char> {
        self.key@
    }

    /// Starts the lookup of the session named by `access_key`.
    pub fn start(access_key: &str) -> (r: (SessionLookup, RedisCommand))
        ensures
            r.0.key() == session_key(access_key@),
            r.1@ == (RedisCommandView::Get { key: session_key(access_key@) }),
    {
        let key = _session_key(access_key);
        let cmd = RedisCommand::Get { key: key.clone() };
        (SessionLookup { key }, cmd)
    }

    /// Continues with the user id read under the key: a missing session ends
    /// the lookup, a present one has its lifetime renewed to
    /// `session_expired_time` seconds.
    pub fn on_uid<E>(self, found: Result<Option<i64>, E>, session_expired_time: i32) -> (r: AfterUid<E>)
        ensures
            match found {
                Err(e) => r == AfterUid::Done(Err::<(Option<i64>, i64), E>(e)),
                Ok(None) => r == AfterUid::<E>::Done(Ok((None, 0))),
                Ok(Some(uid)) => r matches AfterUid::Renew(next, cmd)
                    && next.key() == self.key() && next.uid() == uid
                    && cmd@ == (RedisCommandView::Expire { key: self.key(), seconds: session_expired_time as i64 }),
            },
    {
        match found {
            Err(e) => AfterUid::Done(Err(e)),
            Ok(None) => AfterUid::Done(Ok((None, 0))),
            Ok(Some(uid)) => {
                let cmd = RedisCommand::Expire { key: self.key.clone(), seconds: session_expired_time as i64 };
                AfterUid::Renew(SessionRefresh { key: self.key, uid }, cmd)
            },
        }
    }
}

impl SessionRefresh {
    /// The session key.
    pub closed spec fn key(&self) -> Seq<char> {
        self.key@
    }

    /// The user of the session.
    pub closed spec fn uid(&self) -> i64 {
        self.uid
    }

    /// Continues after the lifetime was renewed by asking how long the
    /// session still lives.
    pub fn on_renewed<E>(self, renewed: Result<(), E>) -> (r: AfterRenew<E>)
        ensures
            match renewed {
                Err(e) => r == AfterRenew::Done(Err::<(Option<i64>, i64), E>(e)),
                Ok(_) => r matches AfterRenew::AskRemaining(next, cmd)
                    && next.uid() == self.uid()
                    && cmd@ == (RedisCommandView::Ttl { key: self.key() }),
            },
    {
        match renewed {
            Err(e) => AfterRenew::Done(Err(e)),
            Ok(_) => AfterRenew::AskRemaining(SessionRemaining { uid: self.uid }, RedisCommand::Ttl { key: self.key }),
        }
    }
}

impl SessionRemaining {
    /// The user of the session.
    pub closed spec fn uid(&self) -> i64 {
        self.uid
    }

    /// Ends the lookup: the session expires `remaining` seconds after `now`.
    pub fn on_remaining<E>(self, remaining: Result<i64, E>, now: i64) -> (r: SessionOutcome<E>)
        requires
            remaining matches Ok(t) ==> i64::MIN <= now + t <= i64::MAX,
        ensures
            match remaining {
                Err(e) => r == Err::<(Option<i64>, i64), E>(e),
                Ok(t) => r == Ok::<(Option<i64>, i64), E>((Some(self.uid()), (now + t) as i64)),
            },
    {
        match remaining {
            Err(e) => Err(e),
            Ok(t) => Ok((Some(self.uid), now + t)),
        }
    }
}

/// The command that reads the remembered family of `uid`.
pub fn family_id_lookup(uid: &i64) -> (c: RedisCommand)
    ensures
        c@ == (RedisCommandView::Get { key: family_id_key(*uid as int) }),
{
    RedisCommand::Get { key: _family_id_key(uid) }
}

/// The command that remembers the family of `uid` for two hours.
pub open spec fn family_id_store_command(uid: int, family_id: i64) -> RedisCommandView {
    RedisCommandView::SetEx { key: family_id_key(uid), value: decimal(family_id as int), seconds: FAMILY_ID_TTL }
}

/// The command that remembers the family of `uid` for two hours.
pub fn family_id_store(uid: &i64, family_id: &i64) -> (c: RedisCommand)
    ensures
        c@ == family_id_store_command(*uid as int, *family_id),
{
    RedisCommand::SetEx { key: _family_id_key(uid), value: i64_to_decimal(*family_id), seconds: FAMILY_ID_TTL }
}

/// A family id is remembered under the very key it is read back from.
pub proof fn law_family_id_read_back_key(uid: int, family_id: i64)
    ensures
        command_key(family_id_store_command(uid, family_id)) == family_id_key(uid),
{
}

} // verus!
