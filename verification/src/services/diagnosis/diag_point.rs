use vstd::prelude::*;
use crate::clock::utc_now;
use crate::point::{is_int_point, status_code, Cot, Point, PointType, Status};
use crate::point_config::PointConfig;

verus! {

/// The state of a diagnosis point: the last status reported.
pub struct DiagPoint {
    pub tx_id: usize,
    pub conf: PointConfig,
    pub value: Status,
}

impl DiagPoint {
    /// Creates a new instance; no status is reported yet.
    pub fn new(tx_id: usize, conf: PointConfig) -> (res: Self)
        ensures
            res.tx_id == tx_id,
            res.conf == conf,
            res.value == Status::Unknown(-1i64),
    {
        Self { tx_id, conf, value: Status::Unknown(-1) }
    }

    /// Returns the diagnosis point carrying the code of `value`.
    fn point(&self, value: Status) -> (res: PointType)
        ensures
            exists|t| is_int_point(res, self.tx_id, self.conf.name@, status_code(value), Status::Good, Cot::Inf, t),
    {
        let t = utc_now();
        let p = PointType::Int(Point::new(self.tx_id, self.conf.name.as_str(), value.code(), Status::Good, Cot::Inf, t));
        assert(is_int_point(p, self.tx_id, self.conf.name@, status_code(value), Status::Good, Cot::Inf, t));
        p
    }

    /// Returns the diagnosis point if `value` differs from the last status
    /// reported; it becomes the last one.
    pub fn next(&mut self, value: Status) -> (res: Option<PointType>)
        ensures
            final(self).tx_id == old(self).tx_id,
            final(self).conf == old(self).conf,
            final(self).value == value,
            value != old(self).value ==> res is Some
                && exists|t| is_int_point(res.unwrap(), old(self).tx_id, old(self).conf.name@, status_code(value), Status::Good, Cot::Inf, t),
            value == old(self).value ==> res is None,
    {
        if value != self.value {
            let p = self.point(value);
            proof {
                let t = choose|t| is_int_point(p, self.tx_id, self.conf.name@, status_code(value), Status::Good, Cot::Inf, t);
                assert(is_int_point(Some(p).unwrap(), self.tx_id, self.conf.name@, status_code(value), Status::Good, Cot::Inf, t));
            }
            self.value = value;
            Some(p)
        } else {
            None
        }
    }
}

/// The keywords of the diagnosis points a device client reports: its own
/// status and the state of its connection.
#[derive(Debug, Clone, Copy, PartialEq, Eq, Structural)]
pub enum DiagKeywd {
    Status,
    Connection,
}

/// The index of the first diagnosis point of keyword `kewd`.
pub open spec fn diag_index(diagnosis: Seq<(DiagKeywd, DiagPoint)>, kewd: DiagKeywd) -> Option<int> {
    if exists|i: int| 0 <= i < diagnosis.len() && #[trigger] diagnosis[i].0 == kewd {
        Some(choose|i: int| 0 <= i < diagnosis.len() && diagnosis[i].0 == kewd
            && forall|j: int| 0 <= j < i ==> #[trigger] diagnosis[j].0 != kewd)
    } else {
        None
    }
}

/// Reports `value` on the diagnosis point of keyword `kewd`: the point to
/// send where it is configured and its status changed (see `DiagPoint::next`),
/// `None` otherwise.
pub fn yield_diagnosis(diagnosis: &mut Vec<(DiagKeywd, DiagPoint)>, kewd: DiagKeywd, value: Status) -> (res: Option<PointType>)
    ensures
        final(diagnosis)@.len() == old(diagnosis)@.len(),
        match diag_index(old(diagnosis)@, kewd) {
            None => res is None && final(diagnosis)@ == old(diagnosis)@,
            Some(i) => {
                let d = old(diagnosis)@[i].1;
                &&& final(diagnosis)@ == old(diagnosis)@.update(i, (kewd, DiagPoint { value, ..d }))
                &&& value != d.value ==> res is Some
                    && exists|t| is_int_point(res.unwrap(), d.tx_id, d.conf.name@, status_code(value), Status::Good, Cot::Inf, t)
                &&& value == d.value ==> res is None
            },
        },
{
    let mut i: usize = 0;
    while i < diagnosis.len()
        invariant
            diagnosis@ == old(diagnosis)@,
            i <= diagnosis@.len(),
            forall|j: int| 0 <= j < i ==> #[trigger] diagnosis@[j].0 != kewd,
        decreases diagnosis@.len() - i,
    {
        if diagnosis[i].0 == kewd {
            proof {
                let k = choose|k: int| 0 <= k < diagnosis@.len() && diagnosis@[k].0 == kewd
                    && forall|j: int| 0 <= j < k ==> #[trigger] diagnosis@[j].0 != kewd;
                if k < i {
                    assert(diagnosis@[k].0 != kewd);
                }
                if k > i {
                    assert(diagnosis@[i as int].0 != kewd);
                }
            }
            let ghost d = diagnosis@[i as int].1;
            let res = diagnosis[i].1.next(value);
            proof {
                assert(diagnosis@[i as int].1 == DiagPoint { value, ..d });
                assert(diagnosis@ =~= old(diagnosis)@.update(i as int, (kewd, DiagPoint { value, ..d })));
            }
            return res;
        }
        i = i + 1;
    }
    None
}

/// Creates the diagnosis points of a service `tx_id`, one per configured
/// keyword, in order; none reported yet.
pub fn diagnosis_of(tx_id: usize, confs: Vec<(DiagKeywd, PointConfig)>) -> (res: Vec<(DiagKeywd, DiagPoint)>)
    ensures
        res@.len() == confs@.len(),
        forall|i: int| 0 <= i < confs@.len() ==> (#[trigger] res@[i]).0 == confs@[i].0
            && res@[i].1 == (DiagPoint { tx_id, conf: confs@[i].1, value: Status::Unknown(-1i64) }),
{
    let mut res: Vec<(DiagKeywd, DiagPoint)> = Vec::new();
    let mut confs = confs;
    let ghost all = confs@;
    let n = confs.len();
    while confs.len() > 0
        invariant
            n == all.len(),
            confs@ == all.subrange(0, confs@.len() as int),
            res@.len() + confs@.len() == n,
            forall|i: int| 0 <= i < res@.len() ==> (#[trigger] res@[i]).0 == all[n - 1 - i].0
                && res@[i].1 == (DiagPoint { tx_id, conf: all[n - 1 - i].1, value: Status::Unknown(-1i64) }),
        decreases confs@.len(),
    {
        let (kw, conf) = confs.pop().unwrap();
        res.push((kw, DiagPoint::new(tx_id, conf)));
    }
    let mut out: Vec<(DiagKeywd, DiagPoint)> = Vec::new();
    while res.len() > 0
        invariant
            n == all.len(),
            res@.len() + out@.len() == n,
            forall|i: int| 0 <= i < res@.len() ==> (#[trigger] res@[i]).0 == all[n - 1 - i].0
                && res@[i].1 == (DiagPoint { tx_id, conf: all[n - 1 - i].1, value: Status::Unknown(-1i64) }),
            forall|i: int| 0 <= i < out@.len() ==> (#[trigger] out@[i]).0 == all[i].0
                && out@[i].1 == (DiagPoint { tx_id, conf: all[i].1, value: Status::Unknown(-1i64) }),
        decreases res@.len(),
    {
        let e = res.pop().unwrap();
        out.push(e);
    }
    out
}

} // verus!
