//! What the device clients (PROFINET and SLMP) share: the data blocks that
//! report a status on all their points, and the subscriptions of their
//! write side.
use vstd::prelude::*;
use crate::point::{Cot, PointType, Status};
use crate::point_config::PointConfig;
use crate::services::multi_queue::subscription_criteria::SubscriptionCriteria;
use crate::services::server::jds_request::criterion_is;

verus! {

/// A data block of a device that can report a status on all its points.
pub trait YieldStatus {
    /// The block is well formed.
    spec fn wf_db(&self) -> bool;

    /// `next` and `res` are the block and the points that applying `status`
    /// to `self` gives.
    spec fn status_yield(&self, next: &Self, status: Status, res: Seq<PointType>) -> bool;

    /// Applies `status` to every point of the block; returns the points
    /// that changed.
    fn yield_status(&mut self, status: Status) -> (res: Vec<PointType>)
        requires
            old(self).wf_db(),
        ensures
            final(self).wf_db(),
            old(self).status_yield(final(self), status, res@);
}

/// The points of the parts, one part after the other.
pub open spec fn concat_all(parts: Seq<Seq<PointType>>) -> Seq<PointType>
    decreases parts.len(),
{
    if parts.len() == 0 {
        Seq::empty()
    } else {
        concat_all(parts.drop_last()) + parts.last()
    }
}

/// Applies `status` to every block, in their order; returns the points that
/// changed, block after block.
pub fn yield_all<D: YieldStatus>(dbs: &mut Vec<(String, D)>, status: Status) -> (res: Vec<PointType>)
    requires
        forall|i: int| 0 <= i < old(dbs)@.len() ==> #[trigger] old(dbs)@[i].1.wf_db(),
    ensures
        final(dbs)@.len() == old(dbs)@.len(),
        forall|i: int| 0 <= i < final(dbs)@.len() ==> #[trigger] final(dbs)@[i].1.wf_db() && final(dbs)@[i].0 == old(dbs)@[i].0,
        exists|parts: Seq<Seq<PointType>>| #![trigger concat_all(parts)] {
            &&& parts.len() == old(dbs)@.len()
            &&& forall|i: int| 0 <= i < parts.len() ==> #[trigger] old(dbs)@[i].1.status_yield(&final(dbs)@[i].1, status, parts[i])
            &&& res@ == concat_all(parts)
        },
{
    let ghost start = dbs@;
    let ghost mut parts: Seq<Seq<PointType>> = Seq::empty();
    let mut res: Vec<PointType> = Vec::new();
    let n = dbs.len();
    let mut i: usize = 0;
    while i < n
        invariant
            n == dbs@.len(),
            n == start.len(),
            start == old(dbs)@,
            i <= n,
            parts.len() == i,
            forall|j: int| 0 <= j < start.len() ==> #[trigger] start[j].1.wf_db(),
            forall|j: int| 0 <= j < n ==> #[trigger] dbs@[j].1.wf_db() && dbs@[j].0 == start[j].0,
            forall|j: int| i <= j < n ==> #[trigger] dbs@[j] == start[j],
            forall|j: int| 0 <= j < i ==> #[trigger] start[j].1.status_yield(&dbs@[j].1, status, parts[j]),
            res@ == concat_all(parts),
        decreases n - i,
    {
        let mut points = dbs[i].1.yield_status(status);
        proof {
            assert(parts.push(points@).drop_last() =~= parts);
            parts = parts.push(points@);
        }
        res.append(&mut points);
        i = i + 1;
    }
    res
}

/// The subscriptions of a device's write side: the commands (cause Act) on
/// each of its points, in order.
pub fn act_criteria(points: &Vec<PointConfig>) -> (res: Vec<SubscriptionCriteria>)
    ensures
        res@.len() == points@.len(),
        forall|i: int| 0 <= i < points@.len() ==> #[trigger] criterion_is(res@[i], points@[i].name@, Cot::Act),
{
    let mut res: Vec<SubscriptionCriteria> = Vec::new();
    let mut i: usize = 0;
    while i < points.len()
        invariant
            i <= points@.len(),
            res@.len() == i,
            forall|j: int| 0 <= j < i ==> #[trigger] criterion_is(res@[j], points@[j].name@, Cot::Act),
        decreases points@.len() - i,
    {
        res.push(SubscriptionCriteria::new(points[i].name.as_str(), Cot::Act));
        i = i + 1;
    }
    res
}

} // verus!
