use vstd::prelude::*;
use chrono::NaiveDateTime;
use crate::clock::utc_now;
use crate::point::{is_int_point, Cot, Point, PointType, Status};
use crate::point_config::{PointConfig, PointConfigAddress, PointConfigHistory};
use crate::services::profinet_client::parse_point::ParsePoint;
use super::filter::{Filter, FilterEmpty};
use crate::word::{i16_be, i16_from_be_bytes};

verus! {

/// The big-endian `i16` at `start` of `bytes`, widened.
pub open spec fn s7_int(bytes: Seq<u8>, start: int) -> i64 {
    i16_be(bytes[start], bytes[start + 1]) as i64
}

/// An Int point held in a big-endian 16-bit word of an S7 data block; its
/// value passes the filter `F`.
pub struct S7ParseInt<F> {
    pub tx_id: usize,
    pub name: String,
    pub value: F,
    pub status: Status,
    pub offset: Option<u32>,
    pub history: PointConfigHistory,
    pub alarm: Option<u8>,
    pub comment: Option<String>,
    pub timestamp: NaiveDateTime,
    pub is_changed: bool,
}

impl<F: Filter<Item = i64>> S7ParseInt<F> {
    pub open spec fn start(&self) -> int {
        self.offset.unwrap() as int
    }

    /// `next` holds the configuration of `self`.
    pub open spec fn same_config(&self, next: &Self) -> bool {
        &&& next.tx_id == self.tx_id
        &&& next.name == self.name
        &&& next.offset == self.offset
        &&& next.history == self.history
        &&& next.alarm == self.alarm
        &&& next.comment == self.comment
    }

    /// The point that the state gives when it changed.
    pub open spec fn state_point(&self, p: Option<PointType>) -> bool {
        if self.is_changed {
            p is Some && is_int_point(p.unwrap(), self.tx_id, self.name@, self.value.current(), self.status, Cot::Inf, self.timestamp)
        } else {
            p is None
        }
    }

    /// Whether applying `bytes` offers a value to the filter: the value read
    /// differs from the filter's, or the status is not Good.
    pub open spec fn raw_changes(&self, bytes: Seq<u8>) -> bool {
        s7_int(bytes, self.start()) != self.value.current() || self.status != Status::Good
    }

    /// The state after `bytes` were applied with `timestamp`.
    pub open spec fn after_raw(&self, next: &Self, bytes: Seq<u8>, timestamp: NaiveDateTime) -> bool {
        &&& self.same_config(next)
        &&& if self.raw_changes(bytes) {
            &&& next.value == self.value.after_add(s7_int(bytes, self.start()))
            &&& next.status == Status::Good
            &&& next.timestamp == timestamp
            &&& next.is_changed
        } else {
            &&& next.value == self.value
            &&& next.status == self.status
            &&& next.timestamp == self.timestamp
            &&& next.is_changed == self.is_changed
        }
    }

    /// Creates a new instance for the point `name` configured by `config`,
    /// its value passing `filter`.
    pub fn new(tx_id: usize, name: String, config: &PointConfig, filter: F) -> (res: Self)
        ensures
            res.tx_id == tx_id,
            res.name == name,
            res.value == filter,
            res.status == Status::Invalid,
            !res.is_changed,
            res.offset == config.spec_address().offset,
            res.history == config.history,
            res.alarm == config.alarm,
            res.comment == config.comment,
    {
        let address = config.address_or_empty();
        S7ParseInt {
            tx_id,
            name,
            value: filter,
            status: Status::Invalid,
            offset: address.offset,
            history: config.history,
            alarm: config.alarm,
            comment: config.comment.clone(),
            timestamp: utc_now(),
            is_changed: false,
        }
    }

    fn to_point(&self) -> (res: Option<PointType>)
        ensures
            self.state_point(res),
    {
        if self.is_changed {
            Some(PointType::Int(Point::new(self.tx_id, self.name.as_str(), self.value.value(), self.status, Cot::Inf, self.timestamp)))
        } else {
            None
        }
    }

    fn add_raw(&mut self, bytes: &[u8], timestamp: NaiveDateTime)
        requires
            old(self).offset is Some,
            old(self).offset.unwrap() + 2 <= bytes@.len(),
        ensures
            old(self).after_raw(final(self), bytes@, timestamp),
    {
        let start = self.offset.unwrap() as usize;
        let new_val = i16_from_be_bytes(bytes[start], bytes[start + 1]) as i64;
        if new_val != self.value.value() || self.status != Status::Good {
            self.value.add(new_val);
            self.status = Status::Good;
            self.timestamp = timestamp;
            self.is_changed = true;
        }
    }
}

impl<F: Filter<Item = i64>> ParsePoint for S7ParseInt<F> {
    open spec fn ready(&self) -> bool {
        self.offset is Some
    }

    open spec fn fits(&self, len: nat) -> bool {
        self.offset.unwrap() + 2 <= len
    }

    open spec fn next_spec(&self, next: &Self, bytes: Seq<u8>, timestamp: NaiveDateTime, res: Option<PointType>) -> bool {
        &&& self.after_raw(&S7ParseInt { is_changed: self.is_changed || self.raw_changes(bytes), ..*next }, bytes, timestamp)
        &&& !next.is_changed
        &&& if self.is_changed || self.raw_changes(bytes) {
            res is Some && is_int_point(res.unwrap(), next.tx_id, next.name@, next.value.current(), next.status, Cot::Inf, next.timestamp)
        } else {
            res is None
        }
    }

    open spec fn status_spec(&self, next: &Self, status: Status, res: Option<PointType>) -> bool {
        &&& self.same_config(next)
        &&& next.value == self.value
        &&& next.status == status
        &&& (self.status == status ==> next.timestamp == self.timestamp)
        &&& !next.is_changed
        &&& if self.status != status || self.is_changed {
            res is Some && is_int_point(res.unwrap(), self.tx_id, self.name@, self.value.current(), status, Cot::Inf, next.timestamp)
        } else {
            res is None
        }
    }

    fn is_ready(&self) -> (res: bool) {
        self.offset.is_some()
    }

    fn fits_len(&self, len: usize) -> (res: bool) {
        match self.offset {
            Some(o) => (o as u64) + 2 <= (len as u64),
            None => false,
        }
    }

    fn next_simple(&mut self, bytes: &[u8]) -> (res: Option<PointType>)
        ensures
            exists|t: NaiveDateTime| old(self).after_raw(final(self), bytes@, t),
            final(self).state_point(res),
    {
        let timestamp = utc_now();
        self.add_raw(bytes, timestamp);
        self.to_point()
    }

    fn next(&mut self, bytes: &[u8], timestamp: NaiveDateTime) -> (res: Option<PointType>)
        ensures
            old(self).after_raw(&S7ParseInt { is_changed: old(self).is_changed || old(self).raw_changes(bytes@), ..*final(self) }, bytes@, timestamp),
            !final(self).is_changed,
            if old(self).is_changed || old(self).raw_changes(bytes@) {
                res is Some && is_int_point(res.unwrap(), final(self).tx_id, final(self).name@, final(self).value.current(), final(self).status, Cot::Inf, final(self).timestamp)
            } else {
                res is None
            },
    {
        self.add_raw(bytes, timestamp);
        let res = self.to_point();
        if res.is_some() {
            self.is_changed = false;
        }
        res
    }

    fn next_status(&mut self, status: Status) -> (res: Option<PointType>)
        ensures
            old(self).same_config(final(self)),
            final(self).value == old(self).value,
            final(self).status == status,
            old(self).status == status ==> final(self).timestamp == old(self).timestamp,
            !final(self).is_changed,
            if old(self).status != status || old(self).is_changed {
                res is Some && is_int_point(res.unwrap(), old(self).tx_id, old(self).name@, old(self).value.current(), status, Cot::Inf, final(self).timestamp)
            } else {
                res is None
            },
    {
        if self.status != status {
            self.status = status;
            self.timestamp = utc_now();
            self.is_changed = true;
        }
        let res = self.to_point();
        if res.is_some() {
            self.is_changed = false;
        }
        res
    }

    fn is_changed(&self) -> (res: bool)
        ensures
            res == self.is_changed,
    {
        self.is_changed
    }

    open spec fn offset_of(&self) -> Option<u32> {
        self.offset
    }

    fn address(&self) -> (res: PointConfigAddress)
        ensures
            res.offset == self.offset,
            res.bit is None,
    {
        PointConfigAddress { offset: self.offset, bit: None }
    }
}

/// Reading the same data twice gives the point at most once where the
/// values pass unfiltered: the second reading finds no change.
pub proof fn law_int_no_repeat(a: S7ParseInt<FilterEmpty<i64>>, b: S7ParseInt<FilterEmpty<i64>>, c: S7ParseInt<FilterEmpty<i64>>, bytes: Seq<u8>, t1: NaiveDateTime, t2: NaiveDateTime, r1: Option<PointType>, r2: Option<PointType>)
    requires
        a.next_spec(&b, bytes, t1, r1),
        b.next_spec(&c, bytes, t2, r2),
    ensures
        r2 is None,
{
}

} // verus!
