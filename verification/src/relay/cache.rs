//! Warm session cache: ephemeral session keys retained for a while after a
//! burst, keyed by route id, evicted lazily on access.
use crate::byte_map::KeyMap;
use crate::relay::perturbation::duration_from_millis;
use vstd::prelude::*;

verus! {

/// The instant `ttl` from now (`Instant::now().checked_add(ttl)`), or
/// `None` when that instant is not representable. Nothing is claimed of
/// the instant.
#[verifier::external_body]
fn expiry_after(ttl: &std::time::Duration) -> Option<std::time::Instant> {
    std::time::Instant::now().checked_add(*ttl)
}

/// Whether `t` is still ahead of the monotonic clock
/// (`t > Instant::now()`). Nothing is claimed of the answer.
#[verifier::external_body]
fn still_ahead(t: &std::time::Instant) -> bool {
    *t > std::time::Instant::now()
}

/// A retained session key and when it stops being warm (`None`: an expiry
/// too far ahead to represent, so never).
pub struct WarmEntry {
    pub key: [u8; 32],
    pub expires: Option<std::time::Instant>,
}

/// Warm session cache — retains ephemeral state for 5–15 minutes after a
/// burst. Eviction is lazy: expired entries are removed on `get`.
pub struct WarmCache {
    default_ttl: std::time::Duration,
    entries: KeyMap<16, WarmEntry>,
}

/// What a lookup of a present entry yields, given whether it is still warm.
pub open spec fn warm_lookup(entries: Map<Seq<u8>, WarmEntry>, route: Seq<u8>, warm: bool) -> Option<[u8; 32]> {
    if entries.contains_key(route) && warm {
        Some(entries[route].key)
    } else {
        None
    }
}

impl WarmCache {
    pub closed spec fn wf(&self) -> bool {
        self.entries.wf()
    }

    /// How long a retained entry stays warm.
    pub closed spec fn spec_ttl(&self) -> std::time::Duration {
        self.default_ttl
    }

    /// How long a retained entry stays warm.
    pub fn default_ttl(&self) -> (d: std::time::Duration)
        ensures
            d == self.spec_ttl(),
    {
        self.default_ttl
    }

    /// Entries by route id.
    pub closed spec fn spec_entries(&self) -> Map<Seq<u8>, WarmEntry> {
        self.entries@
    }

    pub fn new(ttl: std::time::Duration) -> (c: Self)
        ensures
            c.wf(),
            c.spec_ttl() == ttl,
            c.spec_entries() == Map::<Seq<u8>, WarmEntry>::empty(),
    {
        WarmCache { default_ttl: ttl, entries: KeyMap::new() }
    }

    /// Store a warm entry keyed by route ID, replacing any entry for the
    /// same route; it stays warm for the cache's TTL.
    pub fn retain(&mut self, route_id: &[u8; 16], session_key: &[u8; 32])
        requires
            old(self).wf(),
        ensures
            final(self).wf(),
            final(self).spec_ttl() == old(self).spec_ttl(),
            final(self).spec_entries().dom() == old(self).spec_entries().dom().insert(route_id@),
            final(self).spec_entries()[route_id@].key == *session_key,
            forall|r: Seq<u8>| r != route_id@ && #[trigger] old(self).spec_entries().contains_key(r) ==> final(self).spec_entries()[r]
                == old(self).spec_entries()[r],
    {
        let expires = expiry_after(&self.default_ttl);
        self.entries.insert(*route_id, WarmEntry { key: *session_key, expires });
    }

    /// The lookup of `route_id` given whether its entry is still warm: the
    /// key if present and warm; a present but cold entry is evicted.
    pub fn get_at(&mut self, route_id: &[u8; 16], warm: bool) -> (r: Option<[u8; 32]>)
        requires
            old(self).wf(),
        ensures
            final(self).wf(),
            final(self).spec_ttl() == old(self).spec_ttl(),
            r == warm_lookup(old(self).spec_entries(), route_id@, warm),
            old(self).spec_entries().contains_key(route_id@) && !warm ==> final(self).spec_entries()
                == old(self).spec_entries().remove(route_id@),
            !(old(self).spec_entries().contains_key(route_id@) && !warm) ==> final(self).spec_entries()
                == old(self).spec_entries(),
    {
        let key = match self.entries.get(route_id) {
            None => {
                return None;
            },
            Some(e) => e.key,
        };
        if warm {
            Some(key)
        } else {
            self.entries.remove(route_id);
            None
        }
    }

    /// Retrieve a cached session key if still warm; a present but expired
    /// entry is evicted. Whatever the clock read, a returned key is the one
    /// retained for this route, and an absent route yields nothing; an
    /// entry with no expiry is always warm. A present entry that yields
    /// nothing has been removed; otherwise the entries are unchanged.
    pub fn get(&mut self, route_id: &[u8; 16]) -> (r: Option<[u8; 32]>)
        requires
            old(self).wf(),
        ensures
            final(self).wf(),
            final(self).spec_ttl() == old(self).spec_ttl(),
            exists|warm: bool| r == warm_lookup(old(self).spec_entries(), route_id@, warm),
            !old(self).spec_entries().contains_key(route_id@) ==> r is None,
            old(self).spec_entries().contains_key(route_id@) && old(self).spec_entries()[route_id@].expires is None
                ==> r == Some(old(self).spec_entries()[route_id@].key),
            old(self).spec_entries().contains_key(route_id@) && r is None ==> final(self).spec_entries()
                == old(self).spec_entries().remove(route_id@),
            !(old(self).spec_entries().contains_key(route_id@) && r is None) ==> final(self).spec_entries()
                == old(self).spec_entries(),
    {
        let warm = match self.entries.get(route_id) {
            None => false,
            Some(e) => match &e.expires {
                None => true,
                Some(t) => still_ahead(t),
            },
        };
        self.get_at(route_id, warm)
    }

    /// Immediately purge all warm cache entries.
    pub fn purge(&mut self)
        requires
            old(self).wf(),
        ensures
            final(self).wf(),
            final(self).spec_ttl() == old(self).spec_ttl(),
            final(self).spec_entries() == Map::<Seq<u8>, WarmEntry>::empty(),
    {
        self.entries.clear();
    }
}

/// A key retained for a route is what a warm lookup of that route gives
/// back; a lookup of the same entry once cold gives nothing.
pub proof fn lemma_retained_key_read_back(
    before: Map<Seq<u8>, WarmEntry>,
    after: Map<Seq<u8>, WarmEntry>,
    route: Seq<u8>,
    key: [u8; 32],
)
    requires
        after.dom() == before.dom().insert(route),
        after[route].key == key,
    ensures
        warm_lookup(after, route, true) == Some(key),
        warm_lookup(after, route, false) is None,
{
    assert(after.contains_key(route));
}

impl Default for WarmCache {
    /// A zero-TTL empty cache.
    fn default() -> (c: Self)
        ensures
            c.wf(),
            c.spec_entries() == Map::<Seq<u8>, WarmEntry>::empty(),
    {
        WarmCache::new(duration_from_millis(0))
    }
}

} // verus!
