//! The agenda service's Redis entries: one hash of cached agenda pages per family.
use vstd::prelude::*;
use crate::cache::{RedisCommand, RedisCommandView};
use crate::text::{
    decimal, free_of, is_digit, lemma_decimal_free_of, lemma_decimal_injective, lemma_prefix_cancel,
    lemma_split_at_separator, push_char, push_decimal,
};

verus! {

/// The Redis hash that holds the cached agenda pages of a family.
pub open spec fn family_agenda_key(family_id: int) -> Seq<char> {
    "AGENDA:FAMILY:"@ + decimal(family_id)
}

/// The field, inside a family's hash, of the page for a date range, page
/// number and page size: `DATE_<start>_<end>_PN_<pn>_PS_<ps>`.
pub open spec fn agenda_field(date_start: int, date_end: int, pn: int, ps: int) -> Seq<char> {
    "DATE_"@ + (decimal(date_start).push('_') + field_after_start(date_end, pn, ps))
}

/// The part of a field after the start date and its separator.
pub open spec fn field_after_start(date_end: int, pn: int, ps: int) -> Seq<char> {
    decimal(date_end).push('_') + field_page(pn, ps)
}

/// The page part of a field: `PN_<pn>_PS_<ps>`.
pub open spec fn field_page(pn: int, ps: int) -> Seq<char> {
    "PN_"@ + (decimal(pn).push('_') + field_size(ps))
}

/// The size part of a field: `PS_<ps>`.
pub open spec fn field_size(ps: int) -> Seq<char> {
    "PS_"@ + decimal(ps)
}

/// Seconds a family's cached pages live after the last page was stored.
pub const AGENDA_CACHE_TTL: i64 = 3600;

/// The Redis key of a family's cached agenda pages.
pub fn _family_agenda_key(family_id: &i64) -> (k: String)
    ensures
        k@ == family_agenda_key(*family_id as int),
{
    let mut k = "AGENDA:FAMILY:".to_owned();
    push_decimal(&mut k, *family_id);
    k
}

/// The hash field of one cached agenda page.
pub fn _agenda_hset_field(date_start: &i64, date_end: &i64, pn: &i64, ps: &i64) -> (f: String)
    ensures
        f@ == agenda_field(*date_start as int, *date_end as int, *pn as int, *ps as int),
{
    let mut f = "DATE_".to_owned();
    push_decimal(&mut f, *date_start);
    push_char(&mut f, '_');
    push_decimal(&mut f, *date_end);
    push_char(&mut f, '_');
    f.append("PN_");
    push_decimal(&mut f, *pn);
    push_char(&mut f, '_');
    f.append("PS_");
    push_decimal(&mut f, *ps);
    proof {
        let a = decimal(*date_start as int);
        let b = decimal(*date_end as int);
        let p = decimal(*pn as int);
        assert(f@ =~= "DATE_"@ + a + seq!['_'] + b + seq!['_'] + "PN_"@ + p + seq!['_'] + "PS_"@ + decimal(*ps as int));
        assert(field_page(*pn as int, *ps as int) =~= "PN_"@ + p + seq!['_'] + "PS_"@ + decimal(*ps as int));
        assert(field_after_start(*date_end as int, *pn as int, *ps as int) =~= b + seq!['_'] + field_page(*pn as int, *ps as int));
    }
    f
}

/// Different families have different agenda hashes.
pub proof fn law_family_agenda_keys_distinct(a: int, b: int)
    requires
        a != b,
    ensures
        family_agenda_key(a) != family_agenda_key(b),
{
    if family_agenda_key(a) == family_agenda_key(b) {
        lemma_prefix_cancel("AGENDA:FAMILY:"@, decimal(a), decimal(b));
        lemma_decimal_injective(a, b);
    }
}

proof fn lemma_decimal_no_underscore(i: int)
    ensures
        free_of(decimal(i), '_'),
{
    assert(!is_digit('_'));
    lemma_decimal_free_of(i, '_');
}

/// Different page requests are cached under different fields: the field
/// determines the date range, the page number and the page size.
pub proof fn law_agenda_fields_distinct(a1: int, b1: int, pn1: int, ps1: int, a2: int, b2: int, pn2: int, ps2: int)
    requires
        agenda_field(a1, b1, pn1, ps1) == agenda_field(a2, b2, pn2, ps2),
    ensures
        a1 == a2,
        b1 == b2,
        pn1 == pn2,
        ps1 == ps2,
{
    lemma_decimal_no_underscore(a1);
    lemma_decimal_no_underscore(a2);
    lemma_decimal_no_underscore(b1);
    lemma_decimal_no_underscore(b2);
    lemma_decimal_no_underscore(pn1);
    lemma_decimal_no_underscore(pn2);
    lemma_prefix_cancel("DATE_"@, decimal(a1).push('_') + field_after_start(b1, pn1, ps1),
        decimal(a2).push('_') + field_after_start(b2, pn2, ps2));
    lemma_split_at_separator(decimal(a1), field_after_start(b1, pn1, ps1), decimal(a2), field_after_start(b2, pn2, ps2), '_');
    lemma_decimal_injective(a1, a2);
    lemma_split_at_separator(decimal(b1), field_page(pn1, ps1), decimal(b2), field_page(pn2, ps2), '_');
    lemma_decimal_injective(b1, b2);
    lemma_prefix_cancel("PN_"@, decimal(pn1).push('_') + field_size(ps1), decimal(pn2).push('_') + field_size(ps2));
    lemma_split_at_separator(decimal(pn1), field_size(ps1), decimal(pn2), field_size(ps2), '_');
    lemma_decimal_injective(pn1, pn2);
    lemma_prefix_cancel("PS_"@, decimal(ps1), decimal(ps2));
    lemma_decimal_injective(ps1, ps2);
}

/// The cache of the schedule service, over a Redis connection handle `R`.
#[derive(Clone)]
pub struct ScheduleCache<R> {
    redis: R,
}

impl<R> ScheduleCache<R> {
    /// The connection handle the cache uses.
    pub closed spec fn handle(&self) -> R {
        self.redis
    }

    /// A cache over the given connection.
    pub fn new(redis: R) -> (c: ScheduleCache<R>)
        ensures
            c.handle() == redis,
    {
        ScheduleCache { redis }
    }

    /// The connection to send the commands to.
    pub fn redis(&self) -> (r: &R)
        ensures
            *r == self.handle(),
    {
        &self.redis
    }
}

/// Which agenda page a cache entry holds.
#[derive(Debug, Clone, Copy, PartialEq, Eq, Structural)]
pub struct PageSlot {
    pub family_id: i64,
    pub date_start: i64,
    pub date_end: i64,
    pub pn: i64,
    pub ps: i64,
}

/// The hash key of a page slot.
pub open spec fn slot_key(s: PageSlot) -> Seq<char> {
    family_agenda_key(s.family_id as int)
}

/// The hash field of a page slot.
pub open spec fn slot_field(s: PageSlot) -> Seq<char> {
    agenda_field(s.date_start as int, s.date_end as int, s.pn as int, s.ps as int)
}

/// A cached-page read waiting to know whether the page is cached.
pub struct PageRead {
    slot: PageSlot,
}

/// A cached-page read waiting for the page's text.
pub struct PageFetch {
    slot: PageSlot,
}

/// What a cached-page read does once it knows whether the page is cached.
pub enum AfterExists<E> {
    /// The read ended: the page's text, `None` when it is not cached.
    Done(Result<Option<String>, E>),
    /// The page's text must be fetched with the command.
    Fetch(PageFetch, RedisCommand),
}

impl PageRead {
    /// The page read.
    pub closed spec fn slot(&self) -> PageSlot {
        self.slot
    }

    /// Starts reading a cached page by asking whether its field exists.
    pub fn start(slot: PageSlot) -> (r: (PageRead, RedisCommand))
        ensures
            r.0.slot() == slot,
            r.1@ == (RedisCommandView::HExists { key: slot_key(slot), field: slot_field(slot) }),
    {
        let key = _family_agenda_key(&slot.family_id);
        let field = _agenda_hset_field(&slot.date_start, &slot.date_end, &slot.pn, &slot.ps);
        (PageRead { slot }, RedisCommand::HExists { key, field })
    }

    /// Continues with the answer of the existence check (`1` for cached).
    pub fn on_exists<E>(self, present: Result<i8, E>) -> (r: AfterExists<E>)
        ensures
            present matches Err(e) ==> r == AfterExists::Done(Err::<Option<String>, E>(e)),
            (present matches Ok(x) && x == 1) ==> (r matches AfterExists::Fetch(next, cmd)
                && next.slot() == self.slot()
                && cmd@ == (RedisCommandView::HGet { key: slot_key(self.slot()), field: slot_field(self.slot()) })),
            (present matches Ok(x) && x != 1) ==> r == AfterExists::<E>::Done(Ok(None)),
    {
        match present {
            Err(e) => AfterExists::Done(Err(e)),
            Ok(x) => {
                if x == 1 {
                    let key = _family_agenda_key(&self.slot.family_id);
                    let field = _agenda_hset_field(&self.slot.date_start, &self.slot.date_end, &self.slot.pn, &self.slot.ps);
                    AfterExists::Fetch(PageFetch { slot: self.slot }, RedisCommand::HGet { key, field })
                } else {
                    AfterExists::Done(Ok(None))
                }
            },
        }
    }
}

impl PageFetch {
    /// The page read.
    pub closed spec fn slot(&self) -> PageSlot {
        self.slot
    }

    /// Ends the read with the page's text.
    pub fn on_value<E>(self, value: Result<String, E>) -> (r: Result<Option<String>, E>)
        ensures
            match value {
                Err(e) => r == Err::<Option<String>, E>(e),
                Ok(s) => r == Ok::<Option<String>, E>(Some(s)),
            },
    {
        match value {
            Err(e) => Err(e),
            Ok(s) => Ok(Some(s)),
        }
    }
}

/// A page store waiting for the page to be written into the family's hash.
pub struct PageWrite {
    slot: PageSlot,
}

impl PageWrite {
    /// The page stored.
    pub closed spec fn slot(&self) -> PageSlot {
        self.slot
    }

    /// Starts storing the text of a page.
    pub fn start(slot: PageSlot, text: String) -> (r: (PageWrite, RedisCommand))
        ensures
            r.0.slot() == slot,
            r.1@ == (RedisCommandView::HSet { key: slot_key(slot), field: slot_field(slot), value: text@ }),
    {
        let key = _family_agenda_key(&slot.family_id);
        let field = _agenda_hset_field(&slot.date_start, &slot.date_end, &slot.pn, &slot.ps);
        (PageWrite { slot }, RedisCommand::HSet { key, field, value: text })
    }

    /// Continues after the write: a written page renews the lifetime of the
    /// family's hash to an hour; a failed write ends the store.
    pub fn on_written<E>(self, written: Result<(), E>) -> (r: Result<RedisCommand, E>)
        ensures
            match written {
                Err(e) => r == Err::<RedisCommand, E>(e),
                Ok(_) => r matches Ok(cmd)
                    && cmd@ == (RedisCommandView::Expire { key: slot_key(self.slot()), seconds: AGENDA_CACHE_TTL }),
            },
    {
        match written {
            Err(e) => Err(e),
            Ok(_) => Ok(RedisCommand::Expire { key: _family_agenda_key(&self.slot.family_id), seconds: AGENDA_CACHE_TTL }),
        }
    }
}

/// Pages are written and read under the hash key and field of their slot, and
/// two slots share a hash entry only when they are the same slot: a cached
/// page is read back only by a request for the very same page.
pub proof fn law_page_entries_identify_the_slot(slot: PageSlot)
    ensures
        forall|other: PageSlot| #![trigger slot_key(other), slot_field(other)]
            (slot_key(other) == slot_key(slot) && slot_field(other) == slot_field(slot)) <==> other == slot,
{
    assert forall|other: PageSlot| #![trigger slot_key(other), slot_field(other)]
        (slot_key(other) == slot_key(slot) && slot_field(other) == slot_field(slot)) implies other == slot by {
        if other.family_id != slot.family_id {
            law_family_agenda_keys_distinct(other.family_id as int, slot.family_id as int);
        }
        law_agenda_fields_distinct(
            other.date_start as int, other.date_end as int, other.pn as int, other.ps as int,
            slot.date_start as int, slot.date_end as int, slot.pn as int, slot.ps as int,
        );
    }
}

/// Dropping a family's pages removes the hash that holds every page of that
/// family and no page of any other family.
pub proof fn law_drop_touches_only_the_family(family_id: i64, slot: PageSlot)
    ensures
        (slot_key(slot) == family_agenda_key(family_id as int)) <==> slot.family_id == family_id,
{
    if slot.family_id != family_id {
        law_family_agenda_keys_distinct(slot.family_id as int, family_id as int);
    }
}

/// The command that drops every cached page of a family.
pub fn drop_family_pages(family_id: &i64) -> (c: RedisCommand)
    ensures
        c@ == (RedisCommandView::Del { key: family_agenda_key(*family_id as int) }),
{
    RedisCommand::Del { key: _family_agenda_key(family_id) }
}

} // verus!
