//! The PROFINET client: its identity, its diagnosis points, and the status
//! it reports on all points of its data blocks when the device is lost.
use vstd::prelude::*;
use crate::point::{tx_id_from_str, tx_id_of, PointType, Status};
use crate::point_config::PointConfig;
use crate::services::device::{concat_all, yield_all, YieldStatus};
use crate::services::diagnosis::diag_point::{diag_index, diagnosis_of, yield_diagnosis, DiagKeywd, DiagPoint};
use super::parse_point::ParsePoint;
use super::profinet_db::ProfinetDb;

verus! {

/// The PROFINET client of the device named `name`.
pub struct ProfinetClient {
    pub tx_id: usize,
    pub id: String,
    pub name: String,
    pub diagnosis: Vec<(DiagKeywd, DiagPoint)>,
}

impl ProfinetClient {
    /// Creates a new client; its id is the numeric id of its name.
    pub fn new(name: &str, diagnosis: Vec<(DiagKeywd, PointConfig)>) -> (res: Self)
        ensures
            res.tx_id == tx_id_of(name@),
            res.id@ == name@,
            res.name@ == name@,
            res.diagnosis@.len() == diagnosis@.len(),
            forall|i: int| 0 <= i < diagnosis@.len() ==> (#[trigger] res.diagnosis@[i]).0 == diagnosis@[i].0
                && res.diagnosis@[i].1 == (DiagPoint { tx_id: res.tx_id, conf: diagnosis@[i].1, value: Status::Unknown(-1i64) }),
    {
        let tx_id = tx_id_from_str(name);
        ProfinetClient { tx_id, id: name.to_owned(), name: name.to_owned(), diagnosis: diagnosis_of(tx_id, diagnosis) }
    }

    /// Reports `value` on the diagnosis point of keyword `kewd`; see
    /// `yield_diagnosis`.
    pub fn yield_diagnosis(&mut self, kewd: DiagKeywd, value: Status) -> (res: Option<PointType>)
        ensures
            final(self).tx_id == old(self).tx_id,
            final(self).id == old(self).id,
            final(self).name == old(self).name,
            diag_index(old(self).diagnosis@, kewd) is None ==> res is None && final(self).diagnosis@ == old(self).diagnosis@,
            diag_index(old(self).diagnosis@, kewd) matches Some(i) ==>
                final(self).diagnosis@ == old(self).diagnosis@.update(i, (kewd, DiagPoint { value, ..old(self).diagnosis@[i].1 }))
                && (res is Some <==> value != old(self).diagnosis@[i].1.value),
    {
        yield_diagnosis(&mut self.diagnosis, kewd, value)
    }

    /// Reports the status Invalid on every point of the blocks, block after
    /// block; returns the points that changed.
    pub fn yield_status<P: ParsePoint>(dbs: &mut Vec<(String, ProfinetDb<P>)>) -> (res: Vec<PointType>)
        requires
            forall|i: int| 0 <= i < old(dbs)@.len() ==> #[trigger] old(dbs)@[i].1.ready(),
        ensures
            final(dbs)@.len() == old(dbs)@.len(),
            forall|i: int| 0 <= i < final(dbs)@.len() ==> #[trigger] final(dbs)@[i].1.ready() && final(dbs)@[i].0 == old(dbs)@[i].0,
            exists|parts: Seq<Seq<PointType>>| #![trigger concat_all(parts)] {
                &&& parts.len() == old(dbs)@.len()
                &&& forall|i: int| 0 <= i < parts.len() ==> #[trigger] old(dbs)@[i].1.status_yield(&final(dbs)@[i].1, Status::Invalid, parts[i])
                &&& res@ == concat_all(parts)
            },
    {
        proof {
            assert forall|i: int| 0 <= i < old(dbs)@.len() implies #[trigger] old(dbs)@[i].1.wf_db() by {
                assert(old(dbs)@[i].1.ready());
            }
        }
        let res = yield_all(dbs, Status::Invalid);
        assert forall|i: int| 0 <= i < dbs@.len() implies #[trigger] dbs@[i].1.ready() && dbs@[i].0 == old(dbs)@[i].0 by {
            assert(dbs@[i].1.wf_db());
        }
        res
    }
}

} // verus!
