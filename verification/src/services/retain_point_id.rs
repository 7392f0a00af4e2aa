//! Unique ids of the configured points, kept across runs: a point keeps
//! the id retained for its name, a new name gets one more than the
//! largest id retained.
use vstd::prelude::*;
use crate::maps::StrMap;
use crate::point_config::{PointConfig, PointConfigType};
use crate::text::{nat_digits, push_nat};

verus! {

/// The retained record of a point's id.
#[derive(Debug, Clone)]
pub struct RetainedPointConfig {
    pub id: usize,
    pub name: String,
    pub type_: PointConfigType,
}

/// `m` is the largest id retained.
pub open spec fn is_max_id(r: Map<Seq<char>, RetainedPointConfig>, m: usize) -> bool {
    &&& exists|k: Seq<char>| #[trigger] r.contains_key(k) && r[k].id == m
    &&& forall|k: Seq<char>| #[trigger] r.contains_key(k) ==> r[k].id <= m
}

/// The largest id retained.
pub open spec fn max_id(r: Map<Seq<char>, RetainedPointConfig>) -> usize {
    choose|m: usize| is_max_id(r, m)
}

/// The id that a new name gets: one more than the largest retained id, or 0
/// when nothing is retained.
pub open spec fn fresh_id(r: Map<Seq<char>, RetainedPointConfig>) -> int {
    if r.dom().len() == 0 { 0 } else { max_id(r) + 1 }
}

/// The retained records and the id of point `p` after it was looked up.
pub open spec fn assign_one(r: Map<Seq<char>, RetainedPointConfig>, p: PointConfig) -> (Map<Seq<char>, RetainedPointConfig>, int) {
    if r.contains_key(p.name@) {
        (r, r[p.name@].id as int)
    } else {
        let id = fresh_id(r);
        (r.insert(p.name@, (RetainedPointConfig { id: id as usize, name: p.name, type_: p.type_ })), id)
    }
}

/// The retained records and the ids of the points, looked up in order.
pub open spec fn assign(r: Map<Seq<char>, RetainedPointConfig>, ps: Seq<PointConfig>) -> (Map<Seq<char>, RetainedPointConfig>, Seq<int>)
    decreases ps.len(),
{
    if ps.len() == 0 {
        (r, Seq::empty())
    } else {
        let prev = assign(r, ps.drop_last());
        let last = assign_one(prev.0, ps.last());
        (last.0, prev.1.push(last.1))
    }
}

/// Each retained record is stored under its own name.
pub open spec fn records_named(r: Map<Seq<char>, RetainedPointConfig>) -> bool {
    forall|k: Seq<char>| #[trigger] r.contains_key(k) ==> r[k].name@ == k
}

/// Different names have different ids.
pub open spec fn ids_unique(r: Map<Seq<char>, RetainedPointConfig>) -> bool {
    forall|a: Seq<char>, b: Seq<char>| #[trigger] r.contains_key(a) && #[trigger] r.contains_key(b) && a != b ==> r[a].id != r[b].id
}

/// A finite, nonempty set of records has a largest id.
proof fn lemma_max_exists(r: Map<Seq<char>, RetainedPointConfig>)
    requires
        r.dom().finite(),
        r.dom().len() > 0,
    ensures
        is_max_id(r, max_id(r)),
    decreases r.dom().len(),
{
    let k0 = r.dom().choose();
    let rest = r.remove(k0);
    if rest.dom().len() == 0 {
        assert forall|k: Seq<char>| #[trigger] r.contains_key(k) implies r[k].id <= r[k0].id by {
            if k != k0 {
                assert(rest.contains_key(k));
            }
        }
        assert(is_max_id(r, r[k0].id));
    } else {
        lemma_max_exists(rest);
        let m = max_id(rest);
        let top: usize = if r[k0].id > m { r[k0].id } else { m };
        assert forall|k: Seq<char>| #[trigger] r.contains_key(k) implies r[k].id <= top by {
            if k != k0 {
                assert(rest.contains_key(k));
            }
        }
        if r[k0].id > m {
            assert(is_max_id(r, top));
        } else {
            let km = choose|k: Seq<char>| #[trigger] rest.contains_key(k) && rest[k].id == m;
            assert(r.contains_key(km));
            assert(is_max_id(r, top));
        }
    }
}

/// Induction over the points for `law_point_ids_unique`, with `slack`
/// ids to spare below the machine limit.
proof fn lemma_assign(r: Map<Seq<char>, RetainedPointConfig>, ps: Seq<PointConfig>, slack: nat)
    requires
        r.dom().finite(),
        records_named(r),
        ids_unique(r),
        ps.len() + slack < usize::MAX,
        forall|k: Seq<char>| #[trigger] r.contains_key(k) ==> r[k].id + ps.len() + slack < usize::MAX,
    ensures
        ({
            let a = assign(r, ps);
            &&& a.0.dom().finite()
            &&& records_named(a.0)
            &&& ids_unique(a.0)
            &&& a.1.len() == ps.len()
            &&& forall|k: Seq<char>| #[trigger] a.0.contains_key(k) ==> a.0[k].id + slack < usize::MAX
            &&& forall|k: Seq<char>| #[trigger] r.contains_key(k) ==> a.0.contains_key(k) && a.0[k] == r[k]
            &&& forall|i: int| 0 <= i < ps.len() ==> a.0.contains_key(#[trigger] ps[i].name@) && a.0[ps[i].name@].id == a.1[i]
        }),
    decreases ps.len(),
{
    if ps.len() > 0 {
        let init = ps.drop_last();
        lemma_assign(r, init, slack + 1);
        let prev = assign(r, init);
        let p = ps.last();
        let a = assign(r, ps);
        assert(a == (assign_one(prev.0, p).0, prev.1.push(assign_one(prev.0, p).1)));
        if !prev.0.contains_key(p.name@) {
            let id = fresh_id(prev.0);
            if prev.0.dom().len() > 0 {
                lemma_max_exists(prev.0);
                let m = max_id(prev.0);
                let km = choose|k: Seq<char>| #[trigger] prev.0.contains_key(k) && prev.0[k].id == m;
                assert(prev.0[km].id + slack + 1 < usize::MAX);
            }
            let rec = RetainedPointConfig { id: id as usize, name: p.name, type_: p.type_ };
            assert(a.0 == prev.0.insert(p.name@, rec));
            assert forall|x: Seq<char>, y: Seq<char>| #[trigger] a.0.contains_key(x) && #[trigger] a.0.contains_key(y) && x != y
                implies a.0[x].id != a.0[y].id by {
                if x == p.name@ {
                    assert(prev.0.contains_key(y));
                    assert(prev.0[y].id < id);
                } else if y == p.name@ {
                    assert(prev.0.contains_key(x));
                    assert(prev.0[x].id < id);
                }
            }
        }
        assert forall|i: int| 0 <= i < ps.len() implies a.0.contains_key(#[trigger] ps[i].name@) && a.0[ps[i].name@].id == a.1[i] by {
            if i < init.len() {
                assert(init[i] == ps[i]);
            }
        }
    }
}

/// Ids stay unique and each name keeps its id: a point whose name is
/// retained gets the retained id; a new name gets an id that no retained
/// name has, and is retained with it; so points of the same name get the
/// same id and points of different names different ids.
pub proof fn law_point_ids_unique(r: Map<Seq<char>, RetainedPointConfig>, ps: Seq<PointConfig>)
    requires
        r.dom().finite(),
        records_named(r),
        ids_unique(r),
        ps.len() < usize::MAX,
        forall|k: Seq<char>| #[trigger] r.contains_key(k) ==> r[k].id + ps.len() < usize::MAX,
    ensures
        ({
            let a = assign(r, ps);
            &&& records_named(a.0)
            &&& ids_unique(a.0)
            &&& forall|k: Seq<char>| #[trigger] r.contains_key(k) ==> a.0.contains_key(k) && a.0[k] == r[k]
            &&& forall|i: int| 0 <= i < ps.len() ==> a.0.contains_key(#[trigger] ps[i].name@) && a.0[ps[i].name@].id == a.1[i]
            &&& forall|i: int, j: int| 0 <= i < ps.len() && 0 <= j < ps.len() ==>
                ((ps[i].name@ == ps[j].name@) <==> (#[trigger] a.1[i] == #[trigger] a.1[j]))
        }),
{
    lemma_assign(r, ps, 0);
    let a = assign(r, ps);
    assert forall|i: int, j: int| 0 <= i < ps.len() && 0 <= j < ps.len() implies
        ((ps[i].name@ == ps[j].name@) <==> (#[trigger] a.1[i] == #[trigger] a.1[j])) by {
        assert(a.0.contains_key(ps[i].name@));
        assert(a.0.contains_key(ps[j].name@));
    }
}

/// The number of cached points after a call of `points` with `n` points:
/// the cache is filled by the first call, and kept after that.
pub open spec fn cached_len(cached: nat, n: nat) -> nat {
    if cached > 0 { cached } else { n }
}

/// The number of cached points after calls of `points` with lists of the
/// lengths `ns`, in order.
pub open spec fn cached_len_after(cached: nat, ns: Seq<nat>) -> nat
    decreases ns.len(),
{
    if ns.len() == 0 { cached } else { cached_len(cached_len_after(cached, ns.drop_last()), ns.last()) }
}

/// The cache of point configurations fills on the first call of `points`
/// with a nonempty list and is never cleared: after any calls, starting
/// empty, the points are cached exactly when some list was nonempty; once
/// filled, the cache keeps its size.
pub proof fn law_cache_fills_once(cached: nat, ns: Seq<nat>)
    ensures
        cached == 0 ==> (cached_len_after(cached, ns) > 0 <==> exists|i: int| 0 <= i < ns.len() && #[trigger] ns[i] > 0),
        cached > 0 ==> cached_len_after(cached, ns) == cached,
    decreases ns.len(),
{
    if ns.len() > 0 {
        let init = ns.drop_last();
        law_cache_fills_once(cached, init);
        if cached == 0 {
            if exists|i: int| 0 <= i < init.len() && #[trigger] init[i] > 0 {
                let i = choose|i: int| 0 <= i < init.len() && #[trigger] init[i] > 0;
                assert(ns[i] == init[i]);
            }
            if exists|i: int| 0 <= i < ns.len() && #[trigger] ns[i] > 0 {
                let i = choose|i: int| 0 <= i < ns.len() && #[trigger] ns[i] > 0;
                if i < ns.len() - 1 {
                    assert(init[i] == ns[i]);
                }
            }
        }
    }
}

/// Assigning ids adds exactly the names not retained yet.
proof fn lemma_assign_dom(r: Map<Seq<char>, RetainedPointConfig>, ps: Seq<PointConfig>, k: Seq<char>)
    ensures
        assign(r, ps).0.contains_key(k) <==> (r.contains_key(k) || exists|i: int| 0 <= i < ps.len() && #[trigger] ps[i].name@ == k),
    decreases ps.len(),
{
    if ps.len() > 0 {
        let init = ps.drop_last();
        lemma_assign_dom(r, init, k);
        if exists|i: int| 0 <= i < init.len() && #[trigger] init[i].name@ == k {
            let i = choose|i: int| 0 <= i < init.len() && #[trigger] init[i].name@ == k;
            assert(ps[i] == init[i]);
        }
        if exists|i: int| 0 <= i < ps.len() && #[trigger] ps[i].name@ == k {
            let i = choose|i: int| 0 <= i < ps.len() && #[trigger] ps[i].name@ == k;
            if i < ps.len() - 1 {
                assert(init[i] == ps[i]);
            }
        }
    }
}

/// Looking the points up again in records that already hold all their
/// names changes nothing and gives each the recorded id.
proof fn lemma_reassign(m: Map<Seq<char>, RetainedPointConfig>, ids: Seq<int>, ps: Seq<PointConfig>, k: int)
    requires
        0 <= k <= ps.len(),
        ids.len() == ps.len(),
        forall|i: int| 0 <= i < ps.len() ==> m.contains_key(#[trigger] ps[i].name@) && m[ps[i].name@].id == ids[i],
    ensures
        assign(m, ps.take(k)) == (m, ids.take(k)),
    decreases k,
{
    if k == 0 {
        assert(ps.take(0) =~= Seq::<PointConfig>::empty());
        assert(ids.take(0) =~= Seq::<int>::empty());
    } else {
        lemma_reassign(m, ids, ps, k - 1);
        assert(ps.take(k).drop_last() =~= ps.take(k - 1));
        assert(ps.take(k).last() == ps[k - 1]);
        assert(m.contains_key(ps[k - 1].name@));
        assert(ids.take(k) =~= ids.take(k - 1).push(ids[k - 1]));
    }
}

/// The ids are kept across runs: assigning them again to the same points,
/// with the records that the first assignment left, changes no record and
/// gives every point the same id.
pub proof fn law_ids_kept(r: Map<Seq<char>, RetainedPointConfig>, ps: Seq<PointConfig>)
    requires
        r.dom().finite(),
        records_named(r),
        ids_unique(r),
        ps.len() < usize::MAX,
        forall|k: Seq<char>| #[trigger] r.contains_key(k) ==> r[k].id + ps.len() < usize::MAX,
    ensures
        assign(assign(r, ps).0, ps) == assign(r, ps),
{
    lemma_assign(r, ps, 0);
    let a = assign(r, ps);
    lemma_reassign(a.0, a.1, ps, ps.len() as int);
    assert(ps.take(ps.len() as int) =~= ps);
    assert(a.1.take(ps.len() as int) =~= a.1);
}

/// Stores the unique point ids.
#[derive(Debug)]
pub struct RetainPointId {
    pub id: String,
    pub path: String,
    pub cache: Vec<PointConfig>,
    pub api_address: String,
    pub api_auth_token: String,
    pub api_database: String,
}

impl RetainPointId {
    /// Creates a new instance
    /// - parent - the name of the parent object
    /// - path - path to the file where the point ids are stored
    pub fn new(parent: &str, path: &str) -> (res: Self)
        ensures
            res.id@ == parent@ + "/RetainPointId"@,
            res.path@ == path@,
            res.cache@.len() == 0,
            res.api_address@ == "0.0.0.0:8080"@,
            res.api_auth_token@ == "123!@#"@,
            res.api_database@ == "crane_data_server"@,
    {
        let mut id = parent.to_owned();
        id.append("/RetainPointId");
        RetainPointId {
            id,
            path: path.to_owned(),
            cache: Vec::new(),
            api_address: "0.0.0.0:8080".to_owned(),
            api_auth_token: "123!@#".to_owned(),
            api_database: "crane_data_server".to_owned(),
        }
    }

    /// Returns true if the points are already cached.
    pub fn is_cached(&self) -> (res: bool)
        ensures
            res == (self.cache@.len() > 0),
    {
        self.cache.len() > 0
    }

    /// Returns the largest retained id, if any record is retained.
    fn max_retained(retained: &StrMap<RetainedPointConfig>) -> (res: Option<usize>)
        requires
            retained.wf(),
        ensures
            match res {
                None => retained.map().dom().len() == 0,
                Some(m) => retained.map().dom().len() > 0 && m == max_id(retained.map()) && is_max_id(retained.map(), m),
            },
    {
        proof { retained.lemma_keys(); }
        let n = retained.len();
        let mut best: Option<usize> = None;
        let mut i: usize = 0;
        while i < n
            invariant
                retained.wf(),
                n == retained.size(),
                i <= n,
                forall|j: int| 0 <= j < n ==> #[trigger] retained.map().contains_key(retained.key(j)),
                forall|k: Seq<char>| #[trigger] retained.map().contains_key(k) ==> exists|j: int| 0 <= j < n && retained.key(j) == k,
                match best {
                    None => i == 0,
                    Some(m) => (exists|j: int| 0 <= j < i && retained.map()[#[trigger] retained.key(j)].id == m)
                        && (forall|j: int| 0 <= j < i ==> retained.map()[#[trigger] retained.key(j)].id <= m),
                },
            decreases n - i,
        {
            let v = retained.value_at(i).id;
            best = match best {
                None => Some(v),
                Some(m) => if v > m { Some(v) } else { Some(m) },
            };
            i = i + 1;
        }
        match best {
            None => None,
            Some(m) => {
                proof {
                    let r = retained.map();
                    let j = choose|j: int| 0 <= j < n && r[#[trigger] retained.key(j)].id == m;
                    assert(r.contains_key(retained.key(j)) && r[retained.key(j)].id == m);
                    assert forall|k: Seq<char>| #[trigger] r.contains_key(k) implies r[k].id <= m by {
                        let j2 = choose|j2: int| 0 <= j2 < n && retained.key(j2) == k;
                        assert(r[retained.key(j2)].id <= m);
                    }
                    assert(is_max_id(r, m));
                    let c = max_id(r);
                    assert(c <= m && m <= c) by {
                        let kc = choose|k: Seq<char>| #[trigger] r.contains_key(k) && r[k].id == c;
                        let km = retained.key(j);
                        assert(r[km].id <= c);
                        assert(r[kc].id <= m);
                    }
                }
                Some(m)
            }
        }
    }

    /// Returns the configuration of the points with their ids. When nothing
    /// is cached yet, each point takes the id retained for its name in
    /// `retained`, and a name not retained yet gets one more than the
    /// largest retained id (0 when nothing is retained) and is added to
    /// `retained`; the points are then cached. When the points are cached
    /// already, the cached ones are returned and `retained` is kept.
    pub fn points(&mut self, points: Vec<PointConfig>, retained: &mut StrMap<RetainedPointConfig>) -> (res: Vec<PointConfig>)
        requires
            old(retained).wf(),
            old(self).cache@.len() == 0 ==> forall|k: Seq<char>| #[trigger] old(retained).map().contains_key(k)
                ==> old(retained).map()[k].id + points@.len() < usize::MAX,
        ensures
            final(retained).wf(),
            res@ == final(self).cache@,
            final(self).cache@.len() == cached_len(old(self).cache@.len(), points@.len()),
            old(self).cache@.len() > 0 ==> final(self).cache@ == old(self).cache@ && final(retained).map() == old(retained).map(),
            old(self).cache@.len() == 0 ==> {
                let a = assign(old(retained).map(), points@);
                &&& final(retained).map() == a.0
                &&& final(self).cache@.len() == points@.len()
                &&& forall|i: int| 0 <= i < points@.len() ==> #[trigger] final(self).cache@[i]
                    == (PointConfig { id: a.1[i] as usize, ..points@[i] })
                &&& (final(retained).map().dom() == old(retained).map().dom()
                    <==> forall|i: int| 0 <= i < points@.len() ==> old(retained).map().contains_key(#[trigger] points@[i].name@))
            },
    {
        proof {
            let r = retained.map();
            let ps = points@;
            assert forall|k: Seq<char>| #![trigger assign(r, ps).0.contains_key(k)] true implies
                (assign(r, ps).0.contains_key(k) <==> (r.contains_key(k) || exists|i: int| 0 <= i < ps.len() && #[trigger] ps[i].name@ == k)) by {
                lemma_assign_dom(r, ps, k);
            }
            if forall|i: int| 0 <= i < ps.len() ==> r.contains_key(#[trigger] ps[i].name@) {
                assert(assign(r, ps).0.dom() =~= r.dom());
            } else {
                let i = choose|i: int| !(0 <= i < ps.len() ==> r.contains_key(#[trigger] ps[i].name@));
                assert(assign(r, ps).0.contains_key(ps[i].name@));
                assert(!r.dom().contains(ps[i].name@));
                assert(assign(r, ps).0.dom() != r.dom());
            }
        }
        if self.cache.len() == 0 {
            let ghost r0 = retained.map();
            let ghost ps = points@;
            let mut i: usize = 0;
            let n = points.len();
            let mut points = points;
            while i < n
                invariant
                    n == ps.len(),
                    points@ == ps,
                    i <= n,
                    retained.wf(),
                    forall|k: Seq<char>| #[trigger] r0.contains_key(k) ==> r0[k].id + n < usize::MAX,
                    retained.map() == assign(r0, ps.subrange(0, i as int)).0,
                    self.cache@.len() == i,
                    forall|j: int| 0 <= j < i ==> #[trigger] self.cache@[j]
                        == (PointConfig { id: assign(r0, ps.subrange(0, i as int)).1[j] as usize, ..ps[j] }),
                    assign(r0, ps.subrange(0, i as int)).1.len() == i,
                    forall|k: Seq<char>| #[trigger] retained.map().contains_key(k) ==> retained.map()[k].id < usize::MAX - (n - i),
                decreases n - i,
            {
                let ghost prefix = ps.subrange(0, i as int);
                let ghost next = ps.subrange(0, i + 1);
                assert(next.drop_last() =~= prefix);
                assert(next.last() == ps[i as int]);
                let point = points[i].duplicate();
                let id: usize = match retained.get(point.name.as_str()) {
                    Some(conf) => conf.id,
                    None => {
                        let id: usize = match Self::max_retained(retained) {
                            Some(m) => {
                                proof {
                                    let k = choose|k: Seq<char>| #[trigger] retained.map().contains_key(k) && retained.map()[k].id == m;
                                }
                                m + 1
                            }
                            None => 0,
                        };

                        retained.insert(point.name.clone(), RetainedPointConfig { id, name: point.name.clone(), type_: point.type_ });
                        id
                    }
                };
                proof {
                    let prev = assign(r0, prefix);
                    assert(assign(r0, next) == (assign_one(prev.0, ps[i as int]).0, prev.1.push(assign_one(prev.0, ps[i as int]).1)));
                }
                self.cache.push(PointConfig {
                    id,
                    name: point.name,
                    type_: point.type_,
                    history: point.history,
                    alarm: point.alarm,
                    address: point.address,
                    filters: point.filters,
                    comment: point.comment,
                });
                i = i + 1;
            }
            assert(ps.subrange(0, n as int) =~= ps);
        }
        let mut res: Vec<PointConfig> = Vec::new();
        let mut j: usize = 0;
        while j < self.cache.len()
            invariant
                j <= self.cache@.len(),
                res@ == self.cache@.subrange(0, j as int),
            decreases self.cache@.len() - j,
        {
            res.push(self.cache[j].duplicate());
            j = j + 1;
            assert(res@ =~= self.cache@.subrange(0, j as int));
        }
        assert(res@ =~= self.cache@);
        res
    }
}

/// The name of a configured type, as `Debug` writes it.
pub open spec fn config_type_text(t: PointConfigType) -> Seq<char> {
    match t {
        PointConfigType::Bool => "Bool"@,
        PointConfigType::Int => "Int"@,
        PointConfigType::Real => "Real"@,
        PointConfigType::Double => "Double"@,
        PointConfigType::String => "String"@,
        PointConfigType::Json => "Json"@,
    }
}

/// Returns the name of a configured type.
pub fn config_type_str(t: PointConfigType) -> (res: &'static str)
    ensures
        res@ == config_type_text(t),
{
    match t {
        PointConfigType::Bool => "Bool",
        PointConfigType::Int => "Int",
        PointConfigType::Real => "Real",
        PointConfigType::Double => "Double",
        PointConfigType::String => "String",
        PointConfigType::Json => "Json",
    }
}

/// The statement that stores a retained record in the tags table:
/// "insert into public.tags (id, type, name) values ({id},'{type}','{name}');".
pub open spec fn tag_insert(r: RetainedPointConfig) -> Seq<char> {
    "insert into public.tags (id, type, name) values ("@ + nat_digits(r.id as nat) + ",'"@
        + config_type_text(r.type_) + "','"@ + r.name@ + "');"@
}

impl RetainPointId {
    /// The statements that store the retained records in the database: the
    /// tags table emptied, then one insert per record, in order.
    pub fn sql_statements(retained: &StrMap<RetainedPointConfig>) -> (res: Vec<String>)
        requires
            retained.wf(),
        ensures
            res@.len() == retained.size() + 1,
            res@[0]@ == "truncate public.tags;"@,
            forall|i: int| 0 <= i < retained.size() ==>
                #[trigger] res@[i + 1]@ == tag_insert(retained.map()[retained.key(i)]),
    {
        let mut res: Vec<String> = Vec::new();
        res.push("truncate public.tags;".to_owned());
        let n = retained.len();
        let mut i: usize = 0;
        while i < n
            invariant
                n == retained.size(),
                retained.wf(),
                i <= n,
                res@.len() == i + 1,
                res@[0]@ == "truncate public.tags;"@,
                forall|j: int| 0 <= j < i ==> #[trigger] res@[j + 1]@ == tag_insert(retained.map()[retained.key(j)]),
            decreases n - i,
        {
            let r = retained.value_at(i);
            let mut sql = "insert into public.tags (id, type, name) values (".to_owned();
            push_nat(&mut sql, r.id as u64);
            sql.append(",'");
            sql.append(config_type_str(r.type_));
            sql.append("','");
            sql.append(r.name.as_str());
            sql.append("');");
            res.push(sql);
            i = i + 1;
        }
        res
    }
}

/// The type a retained record is stored with in the tags table is its
/// type's name as `Debug` writes it (Bool, Int, Real, Double, String,
/// Json), and different types are stored under different names, so a
/// record read back keeps its type.
pub proof fn law_type_names(t1: PointConfigType, t2: PointConfigType)
    ensures
        config_type_text(t1) == config_type_text(t2) ==> t1 == t2,
        config_type_text(PointConfigType::Bool) == "Bool"@,
        config_type_text(PointConfigType::Int) == "Int"@,
        config_type_text(PointConfigType::Real) == "Real"@,
        config_type_text(PointConfigType::Double) == "Double"@,
        config_type_text(PointConfigType::String) == "String"@,
        config_type_text(PointConfigType::Json) == "Json"@,
{
    reveal_strlit("Bool");
    reveal_strlit("Int");
    reveal_strlit("Real");
    reveal_strlit("Double");
    reveal_strlit("String");
    reveal_strlit("Json");
    if config_type_text(t1) == config_type_text(t2) {
        let a = config_type_text(t1);
        let b = config_type_text(t2);
        assert(a.len() == b.len());
        assert(a[0] == b[0]);
        assert(a.len() > 1 ==> a[1] == b[1]);
    }
}

} // verus!
