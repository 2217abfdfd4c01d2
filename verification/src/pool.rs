//! The pool manager's cache: per-(connection, database) pooled handles,
//! keyed so that distinct databases against one connection get distinct
//! entries. The manager is generic in the handle type: the engines' pools
//! are opaque to it, and a fake handle exercises it in isolation.
//!
//! Acquisition is a protocol driven by the caller, which alone can perform
//! the engine I/O: look the key up with `cached_pool`, health-check the
//! candidate, let `acquire_decision` say whether it may be reused, evict a
//! stale entry with `evict_pool`, and register a freshly built handle with
//! `insert_pool`. `remove_pool` drops every entry of one connection,
//! whatever its database suffix; `clear_all` drops everything.
//!
//! Callers that interleave the protocol concurrently may race between the
//! lookup and the registration, so one key can be built more than once —
//! a bounded number, one build per racing caller, each holding a usable
//! handle. The cache itself never holds two entries for one key: the view
//! is a map, `insert_pool` replaces, and once any registration lands,
//! `acquire_decision` reuses it for every later healthy acquire
//! (`lemma_acquire_after_insert_reuses`).

use vstd::prelude::*;
use vstd::map::*;
use crate::connstr::opt_sref_view;
use crate::strutil::str_eq;

verus! {

/// The unit of pool reuse and invalidation: a connection id and the
/// resolved database name, empty when none was selected.
pub struct PoolKey {
    pub connection_id: String,
    pub database: String,
}

/// The mathematical shape of a `PoolKey`.
pub struct PoolKeyV {
    pub connection_id: Seq<char>,
    pub database: Seq<char>,
}

impl View for PoolKey {
    type V = PoolKeyV;

    open spec fn view(&self) -> PoolKeyV {
        PoolKeyV { connection_id: self.connection_id@, database: self.database@ }
    }
}

/// The cache key for a connection id and an optional database name.
pub open spec fn spec_pool_key(id: Seq<char>, db: Option<Seq<char>>) -> PoolKeyV {
    PoolKeyV {
        connection_id: id,
        database: match db {
            Some(d) => d,
            None => Seq::empty(),
        },
    }
}

struct PoolEntry<H> {
    key: PoolKey,
    pool: H,
}

/// Caches one pooled handle per `(connection id, database)` key.
pub struct PoolManager<H> {
    entries: Vec<PoolEntry<H>>,
}

spec fn keys_unique<H>(s: Seq<PoolEntry<H>>) -> bool {
    forall|i: int, j: int| 0 <= i < j < s.len() ==> s[i].key@ != s[j].key@
}

spec fn entries_map<H>(s: Seq<PoolEntry<H>>) -> Map<PoolKeyV, H>
    decreases s.len(),
{
    if s.len() == 0 {
        Map::empty()
    } else {
        entries_map(s.drop_last()).insert(s.last().key@, s.last().pool)
    }
}

proof fn lemma_entries_map_contains<H>(s: Seq<PoolEntry<H>>, k: PoolKeyV)
    ensures
        entries_map(s).contains_key(k) <==> exists|i: int| 0 <= i < s.len() && s[i].key@ == k,
    decreases s.len(),
{
    if s.len() > 0 {
        lemma_entries_map_contains(s.drop_last(), k);
        if entries_map(s).contains_key(k) {
            if s.last().key@ == k {
                assert(s[s.len() - 1].key@ == k);
            } else {
                let i = choose|i: int|
                    0 <= i < s.drop_last().len() && s.drop_last()[i].key@ == k;
                assert(s[i].key@ == k);
            }
        }
        if exists|i: int| 0 <= i < s.len() && s[i].key@ == k {
            let i = choose|i: int| 0 <= i < s.len() && s[i].key@ == k;
            if i < s.len() - 1 {
                assert(s.drop_last()[i].key@ == k);
            }
        }
    }
}

proof fn lemma_entries_map_at<H>(s: Seq<PoolEntry<H>>, i: int)
    requires
        keys_unique(s),
        0 <= i < s.len(),
    ensures
        entries_map(s).contains_key(s[i].key@),
        entries_map(s)[s[i].key@] == s[i].pool,
    decreases s.len(),
{
    if i < s.len() - 1 {
        assert(keys_unique(s.drop_last())) by {
            assert(forall|x: int, y: int|
                0 <= x < y < s.drop_last().len() ==> s.drop_last()[x] == s[x]
                    && s.drop_last()[y] == s[y]);
        }
        lemma_entries_map_at(s.drop_last(), i);
        assert(s.drop_last()[i] == s[i]);
        assert(s[i].key@ != s.last().key@);
    }
}

proof fn lemma_entries_map_remove<H>(s: Seq<PoolEntry<H>>, i: int)
    requires
        keys_unique(s),
        0 <= i < s.len(),
    ensures
        entries_map(s.remove(i)) == entries_map(s).remove(s[i].key@),
    decreases s.len(),
{
    let k = s[i].key@;
    assert(keys_unique(s.drop_last())) by {
        assert(forall|x: int, y: int|
            0 <= x < y < s.drop_last().len() ==> s.drop_last()[x] == s[x] && s.drop_last()[y]
                == s[y]);
    }
    if i == s.len() - 1 {
        assert(s.remove(i) =~= s.drop_last());
        lemma_entries_map_contains(s.drop_last(), k);
        assert(forall|j: int| 0 <= j < s.len() - 1 ==> s.drop_last()[j] == s[j]);
        assert(!entries_map(s.drop_last()).contains_key(k));
        assert(entries_map(s.drop_last()) =~= entries_map(s.drop_last()).insert(
            k,
            s.last().pool,
        ).remove(k));
    } else {
        assert(s.remove(i).drop_last() =~= s.drop_last().remove(i));
        assert(s.remove(i).last() == s.last());
        lemma_entries_map_remove(s.drop_last(), i);
        assert(s.drop_last()[i] == s[i]);
        assert(k != s.last().key@);
        assert(entries_map(s.drop_last()).remove(k).insert(s.last().key@, s.last().pool)
            =~= entries_map(s.drop_last()).insert(s.last().key@, s.last().pool).remove(k));
    }
}

/// Invalidation of one connection: every entry whose key belongs to
/// `id` leaves the cache, whatever its database component.
pub open spec fn spec_invalidate<H>(m: Map<PoolKeyV, H>, id: Seq<char>) -> Map<PoolKeyV, H> {
    m.restrict(Set::new(|k: PoolKeyV| k.connection_id != id))
}

impl<H> View for PoolManager<H> {
    type V = Map<PoolKeyV, H>;

    closed spec fn view(&self) -> Map<PoolKeyV, H> {
        entries_map(self.entries@)
    }
}

/// Whether an acquire may reuse the cached handle or must build afresh.
#[derive(Debug, PartialEq, Eq, Structural)]
pub enum PoolDecision {
    Reuse,
    Rebuild,
}

impl<H> PoolManager<H> {
    /// Well-formedness: no key is cached twice.
    pub closed spec fn wf(&self) -> bool {
        keys_unique(self.entries@)
    }

    /// An empty cache.
    pub fn new() -> (r: Self)
        ensures
            r.wf(),
            r@ == Map::<PoolKeyV, H>::empty(),
    {
        PoolManager { entries: Vec::new() }
    }

    fn find_index<'a>(&'a self, connection_id: &str, database: Option<&str>) -> (r: Option<usize>)
        ensures
            match r {
                Some(i) => i < self.entries@.len() && self.entries@[i as int].key@
                    == spec_pool_key(connection_id@, opt_sref_view(database)),
                None => forall|j: int|
                    0 <= j < self.entries@.len() ==> self.entries@[j].key@ != spec_pool_key(
                        connection_id@,
                        opt_sref_view(database),
                    ),
            },
    {
        let ghost key = spec_pool_key(connection_id@, opt_sref_view(database));
        let n = self.entries.len();
        let mut i: usize = 0;
        while i < n
            invariant
                n == self.entries@.len(),
                i <= n,
                key == spec_pool_key(connection_id@, opt_sref_view(database)),
                forall|j: int| 0 <= j < i ==> self.entries@[j].key@ != key,
            decreases n - i,
        {
            let e = &self.entries[i];
            let id_eq = str_eq(e.key.connection_id.as_str(), connection_id);
            let db_eq = match database {
                Some(d) => str_eq(e.key.database.as_str(), d),
                None => {
                    let r = e.key.database.as_str().is_empty();
                    proof {
                        if r {
                            assert(e.key.database@ =~= Seq::<char>::empty());
                        } else {
                            assert(e.key.database@ != Seq::<char>::empty());
                        }
                    }
                    r
                },
            };
            if id_eq && db_eq {
                return Some(i);
            }
            proof {
                assert(self.entries@[i as int].key@ != key);
            }
            i = i + 1;
        }
        None
    }

    /// The cached handle for a key, when one is present.
    pub fn cached_pool<'a>(&'a self, connection_id: &str, database: Option<&str>) -> (r: Option<
        &'a H,
    >)
        requires
            self.wf(),
        ensures
            match r {
                Some(h) => self@.contains_key(spec_pool_key(connection_id@, opt_sref_view(database)))
                    && *h == self@[spec_pool_key(connection_id@, opt_sref_view(database))],
                None => !self@.contains_key(spec_pool_key(connection_id@, opt_sref_view(database))),
            },
    {
        let ghost key = spec_pool_key(connection_id@, opt_sref_view(database));
        match self.find_index(connection_id, database) {
            Some(i) => {
                proof {
                    lemma_entries_map_at(self.entries@, i as int);
                }
                Some(&self.entries[i].pool)
            },
            None => {
                proof {
                    lemma_entries_map_contains(self.entries@, key);
                }
                None
            },
        }
    }

    /// The cached handle for a connection with no database selected.
    pub fn get_pool_without_db<'a>(&'a self, connection_id: &str) -> (r: Option<&'a H>)
        requires
            self.wf(),
        ensures
            match r {
                Some(h) => self@.contains_key(spec_pool_key(connection_id@, None))
                    && *h == self@[spec_pool_key(connection_id@, None)],
                None => !self@.contains_key(spec_pool_key(connection_id@, None)),
            },
    {
        self.cached_pool(connection_id, None)
    }

    /// The acquire step: a cached handle is reused exactly when it exists
    /// and its health check passed; anything else calls for a rebuild.
    /// `cached_healthy` is the caller-reported outcome of the health
    /// round-trip against the cached candidate, and is irrelevant when
    /// nothing is cached.
    pub fn acquire_decision(
        &self,
        connection_id: &str,
        database: Option<&str>,
        cached_healthy: bool,
    ) -> (r: PoolDecision)
        requires
            self.wf(),
        ensures
            (r == PoolDecision::Reuse) == (self@.contains_key(
                spec_pool_key(connection_id@, opt_sref_view(database)),
            ) && cached_healthy),
    {
        match self.cached_pool(connection_id, database) {
            Some(_) => if cached_healthy {
                PoolDecision::Reuse
            } else {
                PoolDecision::Rebuild
            },
            None => PoolDecision::Rebuild,
        }
    }

    /// Registers a freshly built handle under its key, replacing any stale
    /// entry cached there.
    pub fn insert_pool(&mut self, connection_id: &str, database: Option<&str>, pool: H)
        requires
            old(self).wf(),
        ensures
            final(self).wf(),
            final(self)@ == old(self)@.insert(
                spec_pool_key(connection_id@, opt_sref_view(database)),
                pool,
            ),
    {
        let ghost key = spec_pool_key(connection_id@, opt_sref_view(database));
        let ghost m0 = self@;
        match self.find_index(connection_id, database) {
            Some(i) => {
                proof {
                    lemma_entries_map_remove(self.entries@, i as int);
                    lemma_entries_map_contains(self.entries@, key);
                }
                let ghost before = self.entries@;
                let _stale = self.entries.remove(i);
                proof {
                    assert(keys_unique(self.entries@)) by {
                        assert(forall|x: int|
                            0 <= x < self.entries@.len() ==> self.entries@[x] == (if x < i {
                                before[x]
                            } else {
                                before[x + 1]
                            }));
                    }
                    assert(forall|j: int|
                        0 <= j < self.entries@.len() ==> self.entries@[j].key@ != key) by {
                        assert(forall|x: int|
                            0 <= x < self.entries@.len() ==> self.entries@[x] == (if x < i {
                                before[x]
                            } else {
                                before[x + 1]
                            }));
                    }
                }
                self.push_entry(connection_id, database, pool);
                proof {
                    assert(final(self)@ =~= m0.insert(key, pool));
                }
            },
            None => {
                self.push_entry(connection_id, database, pool);
            },
        }
    }

    fn push_entry(&mut self, connection_id: &str, database: Option<&str>, pool: H)
        requires
            old(self).wf(),
            forall|j: int|
                0 <= j < old(self).entries@.len() ==> old(self).entries@[j].key@ != spec_pool_key(
                    connection_id@,
                    opt_sref_view(database),
                ),
        ensures
            final(self).wf(),
            final(self)@ == old(self)@.insert(
                spec_pool_key(connection_id@, opt_sref_view(database)),
                pool,
            ),
    {
        let ghost key = spec_pool_key(connection_id@, opt_sref_view(database));
        let ghost before = self.entries@;
        let db_string: String = match database {
            Some(d) => d.to_owned(),
            None => String::new(),
        };
        proof {
            assert(db_string@ =~= key.database);
        }
        let entry = PoolEntry {
            key: PoolKey { connection_id: connection_id.to_owned(), database: db_string },
            pool,
        };
        self.entries.push(entry);
        proof {
            assert(self.entries@.drop_last() =~= before);
            assert(self.entries@.last().key@ == key);
            assert(keys_unique(self.entries@)) by {
                assert(forall|x: int|
                    0 <= x < before.len() ==> self.entries@[x] == before[x]);
            }
        }
    }

    /// Evicts the entry cached under one key, if any; used when its
    /// health check failed, before the handle is rebuilt.
    pub fn evict_pool(&mut self, connection_id: &str, database: Option<&str>)
        requires
            old(self).wf(),
        ensures
            final(self).wf(),
            final(self)@ == old(self)@.remove(
                spec_pool_key(connection_id@, opt_sref_view(database)),
            ),
    {
        let ghost key = spec_pool_key(connection_id@, opt_sref_view(database));
        let ghost before = self.entries@;
        match self.find_index(connection_id, database) {
            Some(i) => {
                proof {
                    lemma_entries_map_remove(self.entries@, i as int);
                }
                let _stale = self.entries.remove(i);
                proof {
                    assert(keys_unique(self.entries@)) by {
                        assert(forall|x: int|
                            0 <= x < self.entries@.len() ==> self.entries@[x] == (if x < i {
                                before[x]
                            } else {
                                before[x + 1]
                            }));
                    }
                }
            },
            None => {
                proof {
                    lemma_entries_map_contains(self.entries@, key);
                    assert(self@ =~= self@.remove(key));
                }
            },
        }
    }

    /// Removes every cached entry of one connection, regardless of its
    /// database suffix, so that no stale authenticated handle stays
    /// reachable after a configuration edit or deletion.
    pub fn remove_pool(&mut self, connection_id: &str)
        requires
            old(self).wf(),
        ensures
            final(self).wf(),
            final(self)@ == spec_invalidate(old(self)@, connection_id@),
    {
        let ghost m0 = self@;
        loop
            invariant
                self.wf(),
                spec_invalidate(self@, connection_id@) == spec_invalidate(m0, connection_id@),
            ensures
                self.wf(),
                self@ == spec_invalidate(m0, connection_id@),
            decreases self.entries@.len(),
        {
            match self.find_index_by_id(connection_id) {
                Some(i) => {
                    let ghost before = self.entries@;
                    let ghost k = self.entries@[i as int].key@;
                    proof {
                        lemma_entries_map_remove(self.entries@, i as int);
                    }
                    let _stale = self.entries.remove(i);
                    proof {
                        assert(keys_unique(self.entries@)) by {
                            assert(forall|x: int|
                                0 <= x < self.entries@.len() ==> self.entries@[x] == (if x
                                    < i {
                                    before[x]
                                } else {
                                    before[x + 1]
                                }));
                        }
                        assert(spec_invalidate(self@, connection_id@) =~= spec_invalidate(
                            entries_map(before),
                            connection_id@,
                        ));
                    }
                },
                None => {
                    proof {
                        assert forall|k: PoolKeyV| self@.contains_key(k) implies k.connection_id
                            != connection_id@ by {
                            lemma_entries_map_contains(self.entries@, k);
                        }
                        assert(spec_invalidate(self@, connection_id@) =~= self@);
                    }
                    break;
                },
            }
        }
    }

    fn find_index_by_id<'a>(&'a self, connection_id: &str) -> (r: Option<usize>)
        ensures
            match r {
                Some(i) => i < self.entries@.len() && self.entries@[i as int].key@.connection_id
                    == connection_id@,
                None => forall|j: int|
                    0 <= j < self.entries@.len() ==> self.entries@[j].key@.connection_id
                        != connection_id@,
            },
    {
        let n = self.entries.len();
        let mut i: usize = 0;
        while i < n
            invariant
                n == self.entries@.len(),
                i <= n,
                forall|j: int| 0 <= j < i ==> self.entries@[j].key@.connection_id != connection_id@,
            decreases n - i,
        {
            if str_eq(self.entries[i].key.connection_id.as_str(), connection_id) {
                return Some(i);
            }
            i = i + 1;
        }
        None
    }

    /// Drops every cached entry.
    pub fn clear_all(&mut self)
        ensures
            final(self).wf(),
            final(self)@ == Map::<PoolKeyV, H>::empty(),
    {
        self.entries.clear();
    }
}

/// Law (acquisition is idempotent, sequential core): once a handle has
/// been registered for a key, the key is cached with exactly that handle,
/// so by `acquire_decision`'s contract every later acquire for the key
/// whose health check passes reuses it and triggers no further
/// construction.
pub proof fn lemma_acquire_after_insert_reuses<H>(m: Map<PoolKeyV, H>, k: PoolKeyV, h: H)
    ensures
        m.insert(k, h).contains_key(k),
        m.insert(k, h)[k] == h,
{
}

/// Law (invalidation is complete): after invalidating a connection, no
/// key of that connection remains cached, whatever database name it was
/// resolved with.
pub proof fn lemma_invalidate_removes_connection<H>(
    m: Map<PoolKeyV, H>,
    id: Seq<char>,
    db: Option<Seq<char>>,
)
    ensures
        !spec_invalidate(m, id).contains_key(spec_pool_key(id, db)),
{
}

/// Law (invalidation is precise): invalidating one connection leaves every
/// entry of every other connection cached unchanged.
pub proof fn lemma_invalidate_keeps_others<H>(m: Map<PoolKeyV, H>, id: Seq<char>, k: PoolKeyV)
    requires
        k.connection_id != id,
        m.contains_key(k),
    ensures
        spec_invalidate(m, id).contains_key(k),
        spec_invalidate(m, id)[k] == m[k],
{
}

} // verus!
