//! The SLMP client: its identity and its diagnosis points.
use vstd::prelude::*;
use crate::point::{tx_id_from_str, tx_id_of, PointType, Status};
use crate::point_config::PointConfig;
use crate::services::diagnosis::diag_point::{diag_index, diagnosis_of, yield_diagnosis, DiagKeywd, DiagPoint};

verus! {

/// The SLMP client of the device named `name`.
pub struct SlmpClient {
    pub tx_id: usize,
    pub id: String,
    pub name: String,
    pub diagnosis: Vec<(DiagKeywd, DiagPoint)>,
}

impl SlmpClient {
    /// Creates a new client; its id is the numeric id of its name.
    pub fn new(name: &str, diagnosis: Vec<(DiagKeywd, PointConfig)>) -> (res: Self)
        ensures
            res.tx_id == tx_id_of(name@),
            res.id@ == name@,
            res.name@ == name@,
            res.diagnosis@.len() == diagnosis@.len(),
            forall|i: int| 0 <= i < diagnosis@.len() ==> (#[trigger] res.diagnosis@[i]).0 == diagnosis@[i].0
                && res.diagnosis@[i].1 == (DiagPoint { tx_id: res.tx_id, conf: diagnosis@[i].1, value: Status::Unknown(-1i64) }),
    {
        let tx_id = tx_id_from_str(name);
        SlmpClient { tx_id, id: name.to_owned(), name: name.to_owned(), diagnosis: diagnosis_of(tx_id, diagnosis) }
    }

    /// Reports `value` on the diagnosis point of keyword `kewd`; see
    /// `yield_diagnosis`.
    pub fn yield_diagnosis(&mut self, kewd: DiagKeywd, value: Status) -> (res: Option<PointType>)
        ensures
            final(self).tx_id == old(self).tx_id,
            final(self).id == old(self).id,
            final(self).name == old(self).name,
            diag_index(old(self).diagnosis@, kewd) is None ==> res is None && final(self).diagnosis@ == old(self).diagnosis@,
            diag_index(old(self).diagnosis@, kewd) matches Some(i) ==>
                final(self).diagnosis@ == old(self).diagnosis@.update(i, (kewd, DiagPoint { value, ..old(self).diagnosis@[i].1 }))
                && (res is Some <==> value != old(self).diagnosis@[i].1.value),
    {
        yield_diagnosis(&mut self.diagnosis, kewd, value)
    }
}

} // verus!
