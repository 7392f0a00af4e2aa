//! The read side of the SLMP client: its data blocks, and the status it
//! reports on all their points when the device is lost.
use vstd::prelude::*;
use std::sync::mpsc::Sender;
use crate::channel::sender_send;
use crate::point::{PointType, Status};
use crate::services::device::{concat_all, yield_all, YieldStatus};

verus! {

/// The cycle a reading side runs with: none where it is not configured or
/// zero (the side is then disabled).
pub fn enabled_cycle(cycle_ms: Option<u64>) -> (res: Option<u64>)
    ensures
        res == match cycle_ms { Some(c) => if c != 0 { Some(c) } else { None }, None => None },
{
    match cycle_ms {
        Some(c) => if c != 0 { Some(c) } else { None },
        None => None,
    }
}

/// Cyclically reads the SLMP data blocks `dbs`, sending the points to `dest`.
pub struct SlmpRead<D> {
    pub id: String,
    pub cycle_ms: Option<u64>,
    pub dest: Sender<PointType>,
    pub dbs: Vec<(String, D)>,
}

impl<D: YieldStatus> SlmpRead<D> {
    /// Creates a new instance named "{parent}/SlmpRead".
    pub fn new(parent: &str, cycle_ms: Option<u64>, dest: Sender<PointType>, dbs: Vec<(String, D)>) -> (res: Self)
        ensures
            res.id@ == parent@ + "/SlmpRead"@,
            res.cycle_ms == cycle_ms,
            res.dest == dest,
            res.dbs == dbs,
    {
        let mut id = parent.to_owned();
        id.append("/SlmpRead");
        SlmpRead { id, cycle_ms, dest, dbs }
    }

    /// Applies `status` to every point of the blocks, block after block,
    /// and sends the points that changed; returns them.
    pub fn yield_status(&mut self, status: Status) -> (res: Vec<PointType>)
        requires
            forall|i: int| 0 <= i < old(self).dbs@.len() ==> #[trigger] old(self).dbs@[i].1.wf_db(),
        ensures
            final(self).id == old(self).id,
            final(self).cycle_ms == old(self).cycle_ms,
            final(self).dbs@.len() == old(self).dbs@.len(),
            forall|i: int| 0 <= i < final(self).dbs@.len() ==> #[trigger] final(self).dbs@[i].1.wf_db()
                && final(self).dbs@[i].0 == old(self).dbs@[i].0,
            exists|parts: Seq<Seq<PointType>>| #![trigger concat_all(parts)] {
                &&& parts.len() == old(self).dbs@.len()
                &&& forall|i: int| 0 <= i < parts.len() ==> #[trigger] old(self).dbs@[i].1.status_yield(&final(self).dbs@[i].1, status, parts[i])
                &&& res@ == concat_all(parts)
            },
    {
        let points = yield_all(&mut self.dbs, status);
        let mut i: usize = 0;
        while i < points.len()
            decreases points@.len() - i,
        {
            let _ = sender_send(&self.dest, points[i].duplicate());
            i = i + 1;
        }
        points
    }
}

} // verus!
