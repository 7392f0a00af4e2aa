//! The cache of the latest point of each destination ("{cot}/{name}"),
//! held in an `IndexMap` in the order the destinations first came.
use vstd::prelude::*;
use std::hash::BuildHasherDefault;
use chrono::NaiveDateTime;
use hashers::fx_hash::FxHasher;
use indexmap::IndexMap;
use crate::point::{Bool, Cot, Point, PointType, Status};
use crate::point_config::{PointConfig, PointConfigType};
use crate::services::multi_queue::subscription_criteria::{destination_of, SubscriptionCriteria};
use super::delay_store::DelyStore;

verus! {

/// `indexmap::IndexMap`; opaque, its contents are named by `cache_entries`.
#[verifier::external_type_specification]
#[verifier::external_body]
#[verifier::reject_recursive_types(K)]
#[verifier::reject_recursive_types(V)]
#[verifier::reject_recursive_types(S)]
pub struct ExIndexMap<K, V, S>(IndexMap<K, V, S>);

/// std's `BuildHasherDefault`; opaque.
#[verifier::external_type_specification]
#[verifier::external_body]
#[verifier::reject_recursive_types(H)]
pub struct ExBuildHasherDefault<H>(BuildHasherDefault<H>);

/// The Fx hasher of the `hashers` crate; opaque.
#[verifier::external_type_specification]
#[verifier::external_body]
pub struct ExFxHasher(FxHasher);

/// The entries of a cache map, in their order: (key, point).
pub uninterp spec fn cache_entries(m: IndexMap<String, PointType, BuildHasherDefault<FxHasher>>) -> Seq<(Seq<char>, PointType)>;

/// No key occurs twice.
pub open spec fn keys_unique(entries: Seq<(Seq<char>, PointType)>) -> bool {
    forall|i: int, j: int| 0 <= i < entries.len() && 0 <= j < entries.len() && i != j ==> #[trigger] entries[i].0 != #[trigger] entries[j].0
}

/// The index of the entry with key `key`.
pub open spec fn key_index(entries: Seq<(Seq<char>, PointType)>, key: Seq<char>) -> Option<int> {
    if exists|i: int| 0 <= i < entries.len() && #[trigger] entries[i].0 == key {
        Some(choose|i: int| 0 <= i < entries.len() && #[trigger] entries[i].0 == key)
    } else {
        None
    }
}

/// The entries after inserting `value` under `key`: an existing key keeps
/// its place and takes the new value; a new key comes last.
pub open spec fn insert_entry(entries: Seq<(Seq<char>, PointType)>, key: Seq<char>, value: PointType) -> Seq<(Seq<char>, PointType)> {
    match key_index(entries, key) {
        Some(i) => entries.update(i, (key, value)),
        None => entries.push((key, value)),
    }
}

/// Calls `IndexMap::with_hasher` with the default `BuildHasherDefault<FxHasher>`:
/// a new map, without entries.
#[verifier::external_body]
fn cache_new() -> (res: IndexMap<String, PointType, BuildHasherDefault<FxHasher>>)
    ensures
        cache_entries(res) == Seq::<(Seq<char>, PointType)>::empty(),
{
    IndexMap::with_hasher(BuildHasherDefault::<FxHasher>::default())
}

/// Calls `IndexMap::insert`: where an equal key exists it keeps its place
/// and its value is replaced (the old one is returned); else the entry is
/// added last. The keys of a map are unique.
#[verifier::external_body]
fn cache_insert(m: &mut IndexMap<String, PointType, BuildHasherDefault<FxHasher>>, key: String, value: PointType) -> (res: Option<PointType>)
    ensures
        keys_unique(cache_entries(*old(m))),
        keys_unique(cache_entries(*final(m))),
        cache_entries(*final(m)) == insert_entry(cache_entries(*old(m)), key@, value),
        match key_index(cache_entries(*old(m)), key@) {
            Some(i) => res == Some(cache_entries(*old(m))[i].1),
            None => res is None,
        },
{
    m.insert(key, value)
}

/// Calls `IndexMap::get`: the value stored for `key`, if there is one.
#[verifier::external_body]
fn cache_get<'a>(m: &'a IndexMap<String, PointType, BuildHasherDefault<FxHasher>>, key: &str) -> (res: Option<&'a PointType>)
    ensures
        match key_index(cache_entries(*m), key@) {
            Some(i) => res matches Some(v) && *v == cache_entries(*m)[i].1,
            None => res is None,
        },
{
    m.get(key)
}

/// Calls `IndexMap::values`: the values of the map, in their order.
#[verifier::external_body]
fn cache_values<'a>(m: &'a IndexMap<String, PointType, BuildHasherDefault<FxHasher>>) -> (res: Vec<&'a PointType>)
    ensures
        res@.len() == cache_entries(*m).len(),
        forall|i: int| 0 <= i < res@.len() ==> *(#[trigger] res@[i]) == cache_entries(*m)[i].1,
{
    m.values().collect()
}

/// `p` stands for the configured point `conf` before any value came:
/// false, 0, 0.0 or the empty text by its type (a Json point is a String
/// point), with the given status, cause Inf.
pub open spec fn is_initial_point(p: PointType, conf: PointConfig, tx_id: usize, status: Status, timestamp: NaiveDateTime) -> bool {
    &&& p.spec_tx_id() == tx_id
    &&& p.spec_name() == conf.name@
    &&& p.spec_status() == status
    &&& p.spec_cot() == Cot::Inf
    &&& match (conf.type_, p) {
        (PointConfigType::Bool, PointType::Bool(q)) => q.value == Bool(false) && q.timestamp == timestamp,
        (PointConfigType::Int, PointType::Int(q)) => q.value == 0 && q.timestamp == timestamp,
        (PointConfigType::Real, PointType::Real(q)) => q.value == 0 && q.timestamp == timestamp,
        (PointConfigType::Double, PointType::Double(q)) => q.value == 0 && q.timestamp == timestamp,
        (PointConfigType::String, PointType::String(q)) => q.value@ == Seq::<char>::empty() && q.timestamp == timestamp,
        (PointConfigType::Json, PointType::String(q)) => q.value@ == Seq::<char>::empty() && q.timestamp == timestamp,
        _ => false,
    }
}

/// The point with its status replaced.
pub open spec fn status_of(point: PointType, status: Status) -> PointType {
    match point {
        PointType::Bool(p) => PointType::Bool(Point { status, ..p }),
        PointType::Int(p) => PointType::Int(Point { status, ..p }),
        PointType::Real(p) => PointType::Real(Point { status, ..p }),
        PointType::Double(p) => PointType::Double(Point { status, ..p }),
        PointType::String(p) => PointType::String(Point { status, ..p }),
    }
}

/// The entries after the points were inserted, in order, under their
/// destinations.
pub open spec fn loaded_entries(entries: Seq<(Seq<char>, PointType)>, points: Seq<PointType>) -> Seq<(Seq<char>, PointType)>
    decreases points.len(),
{
    if points.len() == 0 {
        entries
    } else {
        let prev = loaded_entries(entries, points.drop_last());
        insert_entry(prev, destination_of(points.last().spec_cot(), points.last().spec_name()), points.last())
    }
}

/// The points that a general interrogation on the destinations `dests`
/// gives: the cached point of each destination that has one, in order.
pub open spec fn gi_points(entries: Seq<(Seq<char>, PointType)>, dests: Seq<Seq<char>>) -> Seq<PointType>
    decreases dests.len(),
{
    if dests.len() == 0 {
        Seq::empty()
    } else {
        let prev = gi_points(entries, dests.drop_last());
        match key_index(entries, dests.last()) {
            Some(i) => prev.push(entries[i].1),
            None => prev,
        }
    }
}

impl PointType {
    /// The destination of the point: "{cot}/{name}".
    pub fn dest(&self) -> (res: String)
        ensures
            res@ == destination_of(self.spec_cot(), self.spec_name()),
    {
        SubscriptionCriteria::dest(&self.cot(), self.name())
    }
}

/// What the cache service's loop got from its in-queue.
#[derive(Debug)]
pub enum CacheEvent {
    /// A point came.
    Point(PointType),
    /// Nothing came in time.
    Timeout,
    /// The in-queue was closed.
    Disconnected,
}

/// What the cache service does next.
#[derive(Debug, Clone, Copy, PartialEq, Eq, Structural)]
pub enum CacheAction {
    /// Read on.
    Continue,
    /// Store the cache to the disk, then read on.
    Store,
    /// End the service, storing the cache first where `store`.
    Stop { store: bool },
}

/// The cache service:
/// - id, name - the service's own
/// - cache - the latest point of each destination
pub struct CacheService {
    pub id: String,
    pub name: String,
    pub cache: IndexMap<String, PointType, BuildHasherDefault<FxHasher>>,
}

impl CacheService {
    /// Creates a new service named `name`, with an empty cache.
    pub fn new(name: &str) -> (res: Self)
        ensures
            res.id@ == name@,
            res.name@ == name@,
            cache_entries(res.cache) == Seq::<(Seq<char>, PointType)>::empty(),
    {
        CacheService { id: name.to_owned(), name: name.to_owned(), cache: cache_new() }
    }

    /// The initial point of a configured point; see `is_initial_point`.
    fn initial_of(conf: &PointConfig, tx_id: usize, status: Status, timestamp: NaiveDateTime) -> (res: PointType)
        ensures
            is_initial_point(res, *conf, tx_id, status, timestamp),
    {
        let name = conf.name.clone();
        match conf.type_ {
            PointConfigType::Bool => PointType::Bool(Point { tx_id, name, value: Bool(false), status, cot: Cot::Inf, timestamp }),
            PointConfigType::Int => PointType::Int(Point { tx_id, name, value: 0i64, status, cot: Cot::Inf, timestamp }),
            PointConfigType::Real => PointType::Real(Point { tx_id, name, value: 0u32, status, cot: Cot::Inf, timestamp }),
            PointConfigType::Double => PointType::Double(Point { tx_id, name, value: 0u64, status, cot: Cot::Inf, timestamp }),
            _ => PointType::String(Point { tx_id, name, value: String::new(), status, cot: Cot::Inf, timestamp }),
        }
    }

    /// Fills the cache with the initial point of every configured point
    /// (see `is_initial_point`), in order, under its destination with cause
    /// Inf.
    pub fn initial(tx_id: usize, cache: &mut IndexMap<String, PointType, BuildHasherDefault<FxHasher>>, points: &Vec<PointConfig>, initial_status: Status, timestamp: NaiveDateTime)
        ensures
            exists|initial: Seq<PointType>| #![trigger loaded_entries(cache_entries(*old(cache)), initial)] {
                &&& initial.len() == points@.len()
                &&& forall|i: int| 0 <= i < points@.len() ==> #[trigger] is_initial_point(initial[i], points@[i], tx_id, initial_status, timestamp)
                &&& cache_entries(*final(cache)) == loaded_entries(cache_entries(*old(cache)), initial)
            },
    {
        let mut initial: Vec<PointType> = Vec::new();
        let mut i: usize = 0;
        while i < points.len()
            invariant
                i <= points@.len(),
                initial@.len() == i,
                forall|j: int| 0 <= j < i ==> #[trigger] is_initial_point(initial@[j], points@[j], tx_id, initial_status, timestamp),
            decreases points@.len() - i,
        {
            initial.push(Self::initial_of(&points[i], tx_id, initial_status, timestamp));
            i = i + 1;
        }
        let ghost pts = initial@;
        Self::load(cache, initial);
        assert(cache_entries(*cache) == loaded_entries(cache_entries(*old(cache)), pts));
    }

    /// Puts the points (retained ones, or new ones received) into the
    /// cache, in order, each under its destination.
    pub fn load(cache: &mut IndexMap<String, PointType, BuildHasherDefault<FxHasher>>, points: Vec<PointType>)
        ensures
            cache_entries(*final(cache)) == loaded_entries(cache_entries(*old(cache)), points@),
    {
        let mut i: usize = 0;
        while i < points.len()
            invariant
                i <= points@.len(),
                cache_entries(*cache) == loaded_entries(cache_entries(*old(cache)), points@.take(i as int)),
            decreases points@.len() - i,
        {
            let point = points[i].duplicate();
            let dest = point.dest();
            cache_insert(cache, dest, point);
            proof {
                assert(points@.take(i + 1).drop_last() =~= points@.take(i as int));
            }
            i = i + 1;
        }
        proof {
            assert(points@.take(points@.len() as int) =~= points@);
        }
    }

    /// Puts a point received into the cache, under its destination.
    pub fn insert(cache: &mut IndexMap<String, PointType, BuildHasherDefault<FxHasher>>, point: PointType)
        ensures
            cache_entries(*final(cache)) == insert_entry(cache_entries(*old(cache)),
                destination_of(point.spec_cot(), point.spec_name()), point),
    {
        let dest = point.dest();
        cache_insert(cache, dest, point);
    }

    /// One event of the cache service's loop: a point received is put into
    /// the cache under its destination, and the cache is to be stored where
    /// `exceeded` (the delayed store's answer, asked on each point) says the
    /// delay passed; a timeout changes nothing; a closed in-queue stops the
    /// service without storing.
    pub fn on_event(cache: &mut IndexMap<String, PointType, BuildHasherDefault<FxHasher>>, event: CacheEvent, exceeded: bool) -> (res: CacheAction)
        ensures
            match event {
                CacheEvent::Point(p) => cache_entries(*final(cache)) == insert_entry(cache_entries(*old(cache)),
                        destination_of(p.spec_cot(), p.spec_name()), p)
                    && res == if exceeded { CacheAction::Store } else { CacheAction::Continue },
                CacheEvent::Timeout => cache_entries(*final(cache)) == cache_entries(*old(cache))
                    && res == CacheAction::Continue,
                CacheEvent::Disconnected => cache_entries(*final(cache)) == cache_entries(*old(cache))
                    && res == (CacheAction::Stop { store: false }),
            },
    {
        match event {
            CacheEvent::Point(point) => {
                Self::insert(cache, point);
                if exceeded { CacheAction::Store } else { CacheAction::Continue }
            }
            CacheEvent::Timeout => CacheAction::Continue,
            CacheEvent::Disconnected => CacheAction::Stop { store: false },
        }
    }

    /// Takes the outcome of a store: a successful one marks the cache as
    /// stored.
    pub fn on_stored(dely: &mut DelyStore, result: &Result<(), String>)
        ensures
            final(dely).stored == (old(dely).stored || result is Ok),
            final(dely).delay == old(dely).delay,
            final(dely).delay_nanos == old(dely).delay_nanos,
            final(dely).time == old(dely).time,
    {
        if result.is_ok() {
            dely.set_stored();
        }
    }

    /// After each event: on `exit` the service stops, storing the cache
    /// first unless its latest state was stored; else it goes on.
    pub fn on_exit(dely: &DelyStore, exit: bool) -> (res: CacheAction)
        ensures
            res == if exit { CacheAction::Stop { store: !dely.stored } } else { CacheAction::Continue },
    {
        if exit {
            CacheAction::Stop { store: !dely.stored() }
        } else {
            CacheAction::Continue
        }
    }

    /// The point with its status replaced; see `status_of`.
    pub fn with_status(point: &PointType, status: Status) -> (res: PointType)
        ensures
            res == status_of(*point, status),
    {
        let mut p = point.duplicate();
        match &mut p {
            PointType::Bool(q) => { q.status = status; }
            PointType::Int(q) => { q.status = status; }
            PointType::Real(q) => { q.status = status; }
            PointType::Double(q) => { q.status = status; }
            PointType::String(q) => { q.status = status; }
        }
        p
    }

    /// The cached points, in their order, each with its status replaced by
    /// `status`: what is retained on the disk.
    pub fn store_points(cache: &IndexMap<String, PointType, BuildHasherDefault<FxHasher>>, status: Status) -> (res: Vec<PointType>)
        ensures
            res@.len() == cache_entries(*cache).len(),
            forall|i: int| 0 <= i < res@.len() ==> #[trigger] res@[i] == status_of(cache_entries(*cache)[i].1, status),
    {
        let values = cache_values(cache);
        let mut res: Vec<PointType> = Vec::new();
        let mut i: usize = 0;
        while i < values.len()
            invariant
                i <= values@.len(),
                values@.len() == cache_entries(*cache).len(),
                forall|j: int| 0 <= j < values@.len() ==> *(#[trigger] values@[j]) == cache_entries(*cache)[j].1,
                res@.len() == i,
                forall|j: int| 0 <= j < i ==> #[trigger] res@[j] == status_of(cache_entries(*cache)[j].1, status),
            decreases values@.len() - i,
        {
            res.push(Self::with_status(values[i], status));
            i = i + 1;
        }
        res
    }

    /// The points of a general interrogation: all cached points, in their
    /// order, where no criteria are given; else the cached point of each
    /// criterion's destination that has one, in the order of the criteria.
    pub fn gi(cache: &IndexMap<String, PointType, BuildHasherDefault<FxHasher>>, points: &[SubscriptionCriteria]) -> (res: Vec<PointType>)
        ensures
            points@.len() == 0 ==> res@ == cache_entries(*cache).map_values(|e: (Seq<char>, PointType)| e.1),
            points@.len() > 0 ==> res@ == gi_points(cache_entries(*cache),
                points@.map_values(|c: SubscriptionCriteria| destination_of(c.cot, c.name@))),
    {
        let mut res: Vec<PointType> = Vec::new();
        if points.len() == 0 {
            let values = cache_values(cache);
            let mut i: usize = 0;
            while i < values.len()
                invariant
                    i <= values@.len(),
                    values@.len() == cache_entries(*cache).len(),
                    forall|j: int| 0 <= j < values@.len() ==> *(#[trigger] values@[j]) == cache_entries(*cache)[j].1,
                    res@.len() == i,
                    forall|j: int| 0 <= j < i ==> #[trigger] res@[j] == cache_entries(*cache)[j].1,
                decreases values@.len() - i,
            {
                res.push(values[i].duplicate());
                i = i + 1;
            }
            assert(res@ =~= cache_entries(*cache).map_values(|e: (Seq<char>, PointType)| e.1));
        } else {
            let ghost dests = points@.map_values(|c: SubscriptionCriteria| destination_of(c.cot, c.name@));
            let mut i: usize = 0;
            while i < points.len()
                invariant
                    i <= points@.len(),
                    dests == points@.map_values(|c: SubscriptionCriteria| destination_of(c.cot, c.name@)),
                    res@ == gi_points(cache_entries(*cache), dests.take(i as int)),
                decreases points@.len() - i,
            {
                let d = points[i].destination();
                proof {
                    assert(dests.take(i + 1).drop_last() =~= dests.take(i as int));
                    assert(dests.take(i + 1).last() == d@);
                }
                match cache_get(cache, d.as_str()) {
                    Some(p) => { res.push(p.duplicate()); }
                    None => {}
                }
                i = i + 1;
            }
            assert(dests.take(points@.len() as int) =~= dests);
        }
        res
    }
}

/// What a general interrogation on a destination gives back is the point
/// put into the cache under it last; the keys stay unique.
pub proof fn law_gi_latest(entries: Seq<(Seq<char>, PointType)>, d: Seq<char>, p: PointType)
    requires
        keys_unique(entries),
    ensures
        keys_unique(insert_entry(entries, d, p)),
        gi_points(insert_entry(entries, d, p), seq![d]) == seq![p],
{
    reveal_with_fuel(gi_points, 2);
    let e2 = insert_entry(entries, d, p);
    match key_index(entries, d) {
        Some(i) => {
            assert(entries[i].0 == d);
            assert forall|a: int, b: int| 0 <= a < e2.len() && 0 <= b < e2.len() && a != b implies #[trigger] e2[a].0 != #[trigger] e2[b].0 by {
                assert(e2[a].0 == entries[a].0);
                assert(e2[b].0 == entries[b].0);
            }
            assert(e2[i].0 == d);
            let j = choose|j: int| 0 <= j < e2.len() && #[trigger] e2[j].0 == d;
            assert(j == i);
        }
        None => {
            assert forall|a: int, b: int| 0 <= a < e2.len() && 0 <= b < e2.len() && a != b implies #[trigger] e2[a].0 != #[trigger] e2[b].0 by {
                if a < entries.len() && b < entries.len() {
                    assert(e2[a] == entries[a]);
                    assert(e2[b] == entries[b]);
                } else if a < entries.len() {
                    assert(e2[a] == entries[a]);
                    assert(entries[a].0 != d);
                } else {
                    assert(e2[b] == entries[b]);
                    assert(entries[b].0 != d);
                }
            }
            let last = entries.len() as int;
            assert(e2[last].0 == d);
            let j = choose|j: int| 0 <= j < e2.len() && #[trigger] e2[j].0 == d;
            assert(j == last);
        }
    }
    assert(seq![d].drop_last() =~= Seq::<Seq<char>>::empty());
    assert(seq![d].last() == d);
    assert(gi_points(e2, seq![d]) =~= seq![p]);
}

/// The destination a point is cached under.
pub open spec fn dest_of(p: PointType) -> Seq<char> {
    destination_of(p.spec_cot(), p.spec_name())
}

/// Each entry is cached under its point's destination.
pub open spec fn keyed_by_dest(entries: Seq<(Seq<char>, PointType)>) -> bool {
    forall|i: int| 0 <= i < entries.len() ==> #[trigger] entries[i].0 == dest_of(entries[i].1)
}

/// The entries with each point's status replaced by `status`.
pub open spec fn with_status_entries(entries: Seq<(Seq<char>, PointType)>, status: Status) -> Seq<(Seq<char>, PointType)> {
    entries.map_values(|e: (Seq<char>, PointType)| (e.0, status_of(e.1, status)))
}

/// The last of `points` cached under the destination `d`, if any.
pub open spec fn last_with_dest(points: Seq<PointType>, d: Seq<char>) -> Option<PointType>
    decreases points.len(),
{
    if points.len() == 0 {
        None
    } else if dest_of(points.last()) == d {
        Some(points.last())
    } else {
        last_with_dest(points.drop_last(), d)
    }
}

/// A point is cached under its destination; storing replaces its status.
proof fn lemma_status_keeps_dest(p: PointType, status: Status)
    ensures
        dest_of(status_of(p, status)) == dest_of(p),
{
}

/// What the cache load gives back is what was stored: loading the points
/// that the store wrote from a cache (each point with the store's status),
/// into an empty cache, gives the same entries, in the same order, each
/// point with that status.
pub proof fn law_load_gives_back_stored(entries: Seq<(Seq<char>, PointType)>, status: Status)
    requires
        keys_unique(entries),
        keyed_by_dest(entries),
    ensures
        loaded_entries(Seq::empty(), entries.map_values(|e: (Seq<char>, PointType)| status_of(e.1, status)))
            == with_status_entries(entries, status),
    decreases entries.len(),
{
    let pts = entries.map_values(|e: (Seq<char>, PointType)| status_of(e.1, status));
    let want = with_status_entries(entries, status);
    if entries.len() > 0 {
        let init = entries.drop_last();
        assert(keys_unique(init)) by {
            assert forall|a: int, b: int| 0 <= a < init.len() && 0 <= b < init.len() && a != b implies #[trigger] init[a].0 != #[trigger] init[b].0 by {
                assert(init[a] == entries[a]);
                assert(init[b] == entries[b]);
            }
        }
        assert(keyed_by_dest(init)) by {
            assert forall|a: int| 0 <= a < init.len() implies #[trigger] init[a].0 == dest_of(init[a].1) by {
                assert(init[a] == entries[a]);
            }
        }
        law_load_gives_back_stored(init, status);
        let n = entries.len() - 1;
        assert(pts.drop_last() =~= init.map_values(|e: (Seq<char>, PointType)| status_of(e.1, status)));
        let prev = with_status_entries(init, status);
        let last = entries[n];
        lemma_status_keeps_dest(last.1, status);
        assert(pts.last() == status_of(last.1, status));
        assert(dest_of(pts.last()) == last.0);
        assert(key_index(prev, last.0) is None) by {
            if exists|i: int| 0 <= i < prev.len() && #[trigger] prev[i].0 == last.0 {
                let i = choose|i: int| 0 <= i < prev.len() && #[trigger] prev[i].0 == last.0;
                assert(prev[i].0 == entries[i].0);
                assert(entries[i].0 != entries[n].0);
            }
        }
        assert(want =~= prev.push((last.0, status_of(last.1, status))));
    } else {
        assert(want =~= Seq::<(Seq<char>, PointType)>::empty());
    }
}

/// Inserting under `d2` leaves what a general interrogation on another
/// destination `d` gives, and keeps the keys unique.
proof fn lemma_insert_other(entries: Seq<(Seq<char>, PointType)>, d2: Seq<char>, p: PointType, d: Seq<char>)
    requires
        keys_unique(entries),
        d2 != d,
    ensures
        gi_points(insert_entry(entries, d2, p), seq![d]) == gi_points(entries, seq![d]),
{
    reveal_with_fuel(gi_points, 2);
    let e2 = insert_entry(entries, d2, p);
    assert(seq![d].drop_last() =~= Seq::<Seq<char>>::empty());
    assert(seq![d].last() == d);
    match key_index(entries, d2) {
        Some(j) => {
            assert(forall|i: int| 0 <= i < e2.len() ==> #[trigger] e2[i].0 == entries[i].0);
            assert(forall|i: int| 0 <= i < e2.len() && i != j ==> #[trigger] e2[i] == entries[i]);
            if exists|i: int| 0 <= i < entries.len() && #[trigger] entries[i].0 == d {
                let i = choose|i: int| 0 <= i < entries.len() && #[trigger] entries[i].0 == d;
                assert(e2[i].0 == d);
                let a = choose|a: int| 0 <= a < e2.len() && #[trigger] e2[a].0 == d;
                let b = choose|b: int| 0 <= b < entries.len() && #[trigger] entries[b].0 == d;
                assert(a == b);
                assert(a != j);
            } else {
                assert(!exists|i: int| 0 <= i < e2.len() && #[trigger] e2[i].0 == d) by {
                    if exists|i: int| 0 <= i < e2.len() && #[trigger] e2[i].0 == d {
                        let i = choose|i: int| 0 <= i < e2.len() && #[trigger] e2[i].0 == d;
                        assert(entries[i].0 == d);
                    }
                }
            }
        }
        None => {
            assert(e2 == entries.push((d2, p)));
            if exists|i: int| 0 <= i < entries.len() && #[trigger] entries[i].0 == d {
                let i = choose|i: int| 0 <= i < entries.len() && #[trigger] entries[i].0 == d;
                assert(e2[i].0 == d);
                let a = choose|a: int| 0 <= a < e2.len() && #[trigger] e2[a].0 == d;
                let b = choose|b: int| 0 <= b < entries.len() && #[trigger] entries[b].0 == d;
                assert(e2[b] == entries[b]);
                assert(a < entries.len());
                assert(e2[a] == entries[a]);
                assert(a == b);
            } else {
                assert(!exists|i: int| 0 <= i < e2.len() && #[trigger] e2[i].0 == d) by {
                    if exists|i: int| 0 <= i < e2.len() && #[trigger] e2[i].0 == d {
                        let i = choose|i: int| 0 <= i < e2.len() && #[trigger] e2[i].0 == d;
                        if i < entries.len() {
                            assert(e2[i] == entries[i]);
                        }
                    }
                }
            }
        }
    }
}

/// The cache service's run: after the points received were put into the
/// cache, in order, each destination holds the last point received under
/// it, and a destination that received none holds what it held before; the
/// keys stay unique.
pub proof fn law_cache_run(entries: Seq<(Seq<char>, PointType)>, points: Seq<PointType>, d: Seq<char>)
    requires
        keys_unique(entries),
    ensures
        keys_unique(loaded_entries(entries, points)),
        gi_points(loaded_entries(entries, points), seq![d]) == match last_with_dest(points, d) {
            Some(p) => seq![p],
            None => gi_points(entries, seq![d]),
        },
    decreases points.len(),
{
    if points.len() > 0 {
        let init = points.drop_last();
        law_cache_run(entries, init, d);
        let prev = loaded_entries(entries, init);
        let last = points.last();
        law_gi_latest(prev, dest_of(last), last);
        if dest_of(last) != d {
            lemma_insert_other(prev, dest_of(last), last, d);
        }
    }
}

/// The 'stored' flag after the loop's steps: a step with a point asks the
/// delayed store (which clears the flag) and, where a store followed and
/// succeeded, sets it (`Some(stored_now)`); a step without a point keeps it
/// (`None`). See `DelyStore::exceeded` and `CacheService::on_stored`.
pub open spec fn stored_after(stored: bool, steps: Seq<Option<bool>>) -> bool
    decreases steps.len(),
{
    if steps.len() == 0 {
        stored
    } else {
        match steps.last() {
            Some(now) => now,
            None => stored_after(stored, steps.drop_last()),
        }
    }
}

/// The outcome of the last step with a point, if any.
pub open spec fn last_point_step(steps: Seq<Option<bool>>) -> Option<bool>
    decreases steps.len(),
{
    if steps.len() == 0 {
        None
    } else {
        match steps.last() {
            Some(now) => Some(now),
            None => last_point_step(steps.drop_last()),
        }
    }
}

/// On exit the cache is stored once more (`on_exit` gives `Stop { store:
/// !stored }`) unless the last point received was followed by a store that
/// succeeded.
pub proof fn law_store_on_exit(steps: Seq<Option<bool>>)
    ensures
        !stored_after(false, steps) <==> last_point_step(steps) != Some(true),
    decreases steps.len(),
{
    if steps.len() > 0 {
        law_store_on_exit(steps.drop_last());
    }
}

} // verus!
