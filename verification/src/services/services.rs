//! The registry of the application's services by name, and the points they
//! configure, with ids kept across runs.
use vstd::prelude::*;
use crate::maps::StrMap;
use crate::point_config::PointConfig;
use crate::text::str_eq;
use super::retain_point_id::{assign, RetainPointId, RetainedPointConfig};

verus! {

/// The points of all services but `requester`, service after service.
pub open spec fn others_points(services: Seq<(String, Vec<PointConfig>)>, requester: Seq<char>) -> Seq<PointConfig>
    decreases services.len(),
{
    if services.len() == 0 {
        Seq::empty()
    } else {
        let prev = others_points(services.drop_last(), requester);
        if services.last().0@ != requester { prev + services.last().1@ } else { prev }
    }
}

/// The services by name, and the retained ids of their points.
pub struct Services<S> {
    pub id: String,
    pub map: StrMap<S>,
    pub retain: RetainPointId,
}

impl<S> Services<S> {
    pub const API_CLIENT: &'static str = "ApiClient";
    pub const MULTI_QUEUE: &'static str = "MultiQueue";
    pub const PROFINET_CLIENT: &'static str = "ProfinetClient";
    pub const TASK: &'static str = "Task";
    pub const TCP_CLIENT: &'static str = "TcpClient";
    pub const TCP_SERVER: &'static str = "TcpServer";
    pub const PRODUCER_SERVICE: &'static str = "ProducerService";
    pub const CACHE_SERVICE: &'static str = "CacheService";

    /// Creates an empty registry "{parent}/Services", retaining the point
    /// ids in "assets/retain_points.json".
    pub fn new(parent: &str) -> (res: Self)
        ensures
            res.id@ == parent@ + "/Services"@,
            res.map.wf(),
            res.map.map() == Map::<Seq<char>, S>::empty(),
            res.retain.id@ == res.id@ + "/RetainPointId"@,
            res.retain.path@ == "assets/retain_points.json"@,
            res.retain.cache@.len() == 0,
    {
        let mut id = parent.to_owned();
        id.append("/Services");
        let retain = RetainPointId::new(id.as_str(), "assets/retain_points.json");
        Services { id, map: StrMap::new(), retain }
    }

    /// Whether a service named `name` is registered.
    pub fn contains(&self, name: &str) -> (res: bool)
        requires
            self.map.wf(),
        ensures
            res == self.map.map().contains_key(name@),
    {
        self.map.contains_key(name)
    }

    /// Registers the service `name`; the name must be new.
    pub fn insert(&mut self, name: String, service: S)
        requires
            old(self).map.wf(),
            !old(self).map.map().contains_key(name@),
        ensures
            final(self).map.wf(),
            final(self).map.map() == old(self).map.map().insert(name@, service),
            final(self).id == old(self).id,
    {
        self.map.insert(name, service);
    }

    /// The service named `name`, which must be registered.
    pub fn get(&self, name: &str) -> (res: &S)
        requires
            self.map.wf(),
            self.map.map().contains_key(name@),
        ensures
            *res == self.map.map()[name@],
    {
        self.map.get(name).unwrap()
    }

    /// The points of all services but `requester`, service after service.
    pub fn others_points(services: &Vec<(String, Vec<PointConfig>)>, requester: &str) -> (res: Vec<PointConfig>)
        ensures
            res@ == others_points(services@, requester@),
    {
        let mut res: Vec<PointConfig> = Vec::new();
        let mut i: usize = 0;
        while i < services.len()
            invariant
                i <= services@.len(),
                res@ == others_points(services@.take(i as int), requester@),
            decreases services@.len() - i,
        {
            proof {
                assert(services@.take(i + 1).drop_last() =~= services@.take(i as int));
            }
            if !str_eq(services[i].0.as_str(), requester) {
                let mut j: usize = 0;
                let ghost before = res@;
                while j < services[i].1.len()
                    invariant
                        i < services@.len(),
                        j <= services@[i as int].1@.len(),
                        res@ == before + services@[i as int].1@.take(j as int),
                    decreases services@[i as int].1@.len() - j,
                {
                    res.push(services[i].1[j].duplicate());
                    assert(services@[i as int].1@.take(j + 1) =~= services@[i as int].1@.take(j as int).push(services@[i as int].1@[j as int]));
                    j = j + 1;
                }
                assert(services@[i as int].1@.take(j as int) =~= services@[i as int].1@);
            }
            i = i + 1;
        }
        assert(services@.take(services@.len() as int) =~= services@);
        res
    }

    /// The points configured over all services but `requester`, each with
    /// its retained id (see `RetainPointId::points`); once the ids were
    /// assigned, the same list again.
    pub fn points(&mut self, services: &Vec<(String, Vec<PointConfig>)>, requester: &str, retained: &mut StrMap<RetainedPointConfig>) -> (res: Vec<PointConfig>)
        requires
            old(retained).wf(),
            old(self).retain.cache@.len() == 0 ==> forall|k: Seq<char>| #[trigger] old(retained).map().contains_key(k)
                ==> old(retained).map()[k].id + others_points(services@, requester@).len() < usize::MAX,
        ensures
            final(retained).wf(),
            final(self).id == old(self).id,
            final(self).map == old(self).map,
            res@ == final(self).retain.cache@,
            old(self).retain.cache@.len() > 0 ==> final(self).retain.cache@ == old(self).retain.cache@
                && final(retained).map() == old(retained).map(),
            old(self).retain.cache@.len() == 0 ==> {
                let ps = others_points(services@, requester@);
                let a = assign(old(retained).map(), ps);
                &&& final(retained).map() == a.0
                &&& final(self).retain.cache@.len() == ps.len()
                &&& forall|i: int| 0 <= i < ps.len() ==> #[trigger] final(self).retain.cache@[i]
                    == (PointConfig { id: a.1[i] as usize, ..ps[i] })
            },
    {
        if !self.retain.is_cached() {
            let points = Self::others_points(services, requester);
            self.retain.points(points, retained)
        } else {
            self.retain.points(Vec::new(), retained)
        }
    }
}

} // verus!
