use vstd::prelude::*;

verus! {

/// Seconds after which a stored response must be treated as stale.
pub const FRESHNESS_WINDOW_SECS: u64 = 300;

/// A cached value together with the time (in seconds) at which it was stored.
#[derive(Debug, Clone)]
pub struct TemplateTTL<T> {
    pub ttl: T,
    pub created_at: u64,
}

/// The storage that backs the response cache. The collection itself comes
/// from an outside crate, so it is held opaquely; everything stated about it
/// goes through `cache_contents` and `cache_items_capacity`.
#[verifier::external_body]
pub struct RawCache {
    inner: quick_cache::unsync::Cache<String, (String, u64)>,
}

/// The entries resident in a cache: key characters to stored content and store time.
pub uninterp spec fn cache_contents(c: RawCache) -> Map<Seq<char>, (Seq<char>, u64)>;

/// The item capacity the cache was created with.
pub uninterp spec fn cache_items_capacity(c: RawCache) -> nat;

/// Relies on `quick_cache::unsync::Cache::new`: creates an empty cache that
/// holds up to `items_capacity` items.
#[verifier::external_body]
fn cache_new() -> (c: RawCache)
    ensures
        cache_contents(c) =~= Map::empty(),
        cache_items_capacity(c) == usize::MAX as nat,
{
    RawCache { inner: quick_cache::unsync::Cache::new(usize::MAX) }
}

/// Relies on `quick_cache::unsync::Cache::get`: returns the resident entry for
/// the key, if any; a shared borrow, so the contents do not change.
#[verifier::external_body]
fn cache_get<'a>(c: &'a RawCache, key: &str) -> (r: Option<&'a (String, u64)>)
    ensures
        match r {
            Some(v) => cache_contents(*c).contains_key(key@) && cache_contents(*c)[key@] == (
                v.0@,
                v.1,
            ),
            None => !cache_contents(*c).contains_key(key@),
        },
{
    c.inner.get(key)
}

/// Relies on `quick_cache::unsync::Cache::insert`: with the unit weighter and
/// an item capacity of `usize::MAX`, an insert is always admitted, replaces any
/// entry with the same key, and evicts nothing else (the weight budget cannot
/// be exhausted before the process itself runs out of memory).
#[verifier::external_body]
fn cache_insert(c: &mut RawCache, key: String, value: (String, u64))
    requires
        cache_items_capacity(*old(c)) == usize::MAX as nat,
    ensures
        cache_contents(*final(c)) == cache_contents(*old(c)).insert(key@, (value.0@, value.1)),
        cache_items_capacity(*final(c)) == cache_items_capacity(*old(c)),
{
    c.inner.insert(key, value)
}

/// Whether the entry for `key` is still fresh at time `now`.
pub open spec fn fresh_at(m: Map<Seq<char>, (Seq<char>, u64)>, key: Seq<char>, now: u64) -> bool {
    m.contains_key(key) && m[key].1 <= now && now - m[key].1 < FRESHNESS_WINDOW_SECS
}

/// The response cache: request key to stored content plus fetch time.
/// Staleness is evaluated lazily at lookup time; entries are only ever
/// replaced, never swept.
pub struct ResponseCache {
    entries: RawCache,
}

impl View for ResponseCache {
    type V = Map<Seq<char>, (Seq<char>, u64)>;

    closed spec fn view(&self) -> Map<Seq<char>, (Seq<char>, u64)> {
        cache_contents(self.entries)
    }
}

impl ResponseCache {
    /// The cache never rejects or evicts entries on its own.
    pub closed spec fn wf(self) -> bool {
        cache_items_capacity(self.entries) == usize::MAX as nat
    }

    pub fn new() -> (c: ResponseCache)
        ensures
            c.wf(),
            c@ == Map::<Seq<char>, (Seq<char>, u64)>::empty(),
    {
        ResponseCache { entries: cache_new() }
    }

    /// Inserts or overwrites the entry for `key`, fetched at `now`.
    pub fn store(&mut self, key: &str, content: String, now: u64)
        requires
            old(self).wf(),
        ensures
            final(self).wf(),
            final(self)@ == old(self)@.insert(key@, (content@, now)),
    {
        cache_insert(&mut self.entries, key.to_owned(), (content, now));
    }

    /// The stored content for `key`, only if an entry exists and is still
    /// fresh at `now`; anything else is a miss, not an error.
    pub fn lookup(&self, key: &str, now: u64) -> (r: Option<String>)
        ensures
            match r {
                Some(content) => fresh_at(self@, key@, now) && content@ == self@[key@].0,
                None => !fresh_at(self@, key@, now),
            },
    {
        match cache_get(&self.entries, key) {
            Some(entry) => {
                if now >= entry.1 && now - entry.1 < FRESHNESS_WINDOW_SECS {
                    Some(entry.0.clone())
                } else {
                    None
                }
            },
            None => None,
        }
    }

    /// The stored entry for `key`, fresh or stale.
    pub fn entry(&self, key: &str) -> (r: Option<TemplateTTL<String>>)
        ensures
            match r {
                Some(e) => self@.contains_key(key@) && self@[key@] == (e.ttl@, e.created_at),
                None => !self@.contains_key(key@),
            },
    {
        match cache_get(&self.entries, key) {
            Some(entry) => Some(TemplateTTL { ttl: entry.0.clone(), created_at: entry.1 }),
            None => None,
        }
    }
}

/// Law: after storing content for a key, a lookup of that key succeeds and
/// returns exactly that content while the freshness window has not elapsed,
/// and misses once it has.
pub proof fn lemma_store_then_lookup(
    m: Map<Seq<char>, (Seq<char>, u64)>,
    key: Seq<char>,
    content: Seq<char>,
    now: u64,
    later: u64,
)
    ensures
        fresh_at(m.insert(key, (content, now)), key, later) <==> (now <= later && later - now
            < FRESHNESS_WINDOW_SECS),
        m.insert(key, (content, now))[key].0 == content,
{
}

} // verus!
