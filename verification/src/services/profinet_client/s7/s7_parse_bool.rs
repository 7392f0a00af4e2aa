use vstd::prelude::*;
use chrono::NaiveDateTime;
use crate::clock::utc_now;
use crate::point::{is_bool_point, Bool, Cot, Point, PointType, Status};
use crate::point_config::{PointConfig, PointConfigAddress, PointConfigHistory};
use crate::services::profinet_client::parse_point::ParsePoint;
use crate::word::{bit16_of, get_bit16, i16_from_le_bytes, i16_le};

verus! {

/// Bit `bit` of the little-endian word at `start` of `bytes`.
pub open spec fn s7_bit(bytes: Seq<u8>, start: int, bit: u64) -> bool {
    bit16_of(i16_le(bytes[start], bytes[start + 1]), bit)
}

/// A Bool point held in one bit of a 16-bit word of an S7 data block.
#[derive(Debug, Clone)]
pub struct S7ParseBool {
    pub tx_id: usize,
    pub name: String,
    pub value: bool,
    pub status: Status,
    pub offset: Option<u32>,
    pub bit: Option<u8>,
    pub history: PointConfigHistory,
    pub alarm: Option<u8>,
    pub comment: Option<String>,
    pub timestamp: NaiveDateTime,
    pub is_changed: bool,
}

impl S7ParseBool {
    pub open spec fn start(&self) -> int {
        self.offset.unwrap() as int
    }

    pub open spec fn bit_no(&self) -> u64 {
        self.bit.unwrap() as u64
    }

    /// `next` holds the configuration of `self`.
    pub open spec fn same_config(&self, next: &Self) -> bool {
        &&& next.tx_id == self.tx_id
        &&& next.name == self.name
        &&& next.offset == self.offset
        &&& next.bit == self.bit
        &&& next.history == self.history
        &&& next.alarm == self.alarm
        &&& next.comment == self.comment
    }

    /// The point that the state gives when it changed.
    pub open spec fn state_point(&self, p: Option<PointType>) -> bool {
        if self.is_changed {
            p is Some && is_bool_point(p.unwrap(), self.tx_id, self.name@, self.value, self.status, Cot::Inf, self.timestamp)
        } else {
            p is None
        }
    }

    /// The state after `bytes` were applied with `timestamp`: a new bit
    /// value is taken with status Good and the timestamp; the same value
    /// keeps the state.
    pub open spec fn after_raw(&self, next: &Self, bytes: Seq<u8>, timestamp: NaiveDateTime) -> bool {
        let nv = s7_bit(bytes, self.start(), self.bit_no());
        &&& self.same_config(next)
        &&& if nv != self.value {
            &&& next.value == nv
            &&& next.status == Status::Good
            &&& next.timestamp == timestamp
            &&& next.is_changed
        } else {
            &&& next.value == self.value
            &&& next.status == self.status
            &&& next.timestamp == self.timestamp
            &&& next.is_changed == self.is_changed
        }
    }

    /// Creates a new instance for the point `name` configured by `config`.
    pub fn new(tx_id: usize, name: String, config: &PointConfig) -> (res: S7ParseBool)
        ensures
            res.tx_id == tx_id,
            res.name == name,
            !res.value,
            res.status == Status::Invalid,
            !res.is_changed,
            res.offset == config.spec_address().offset,
            res.bit == config.spec_address().bit,
            res.history == config.history,
            res.alarm == config.alarm,
            res.comment == config.comment,
    {
        let address = config.address_or_empty();
        S7ParseBool {
            tx_id,
            name,
            value: false,
            status: Status::Invalid,
            offset: address.offset,
            bit: address.bit,
            history: config.history,
            alarm: config.alarm,
            comment: config.comment.clone(),
            timestamp: utc_now(),
            is_changed: false,
        }
    }

    fn to_point(&self) -> (res: Option<PointType>)
        ensures
            self.state_point(res),
    {
        if self.is_changed {
            Some(PointType::Bool(Point::new(self.tx_id, self.name.as_str(), Bool(self.value), self.status, Cot::Inf, self.timestamp)))
        } else {
            None
        }
    }

    fn add_raw(&mut self, bytes: &[u8], timestamp: NaiveDateTime)
        requires
            old(self).ready(),
            old(self).fits(bytes@.len()),
        ensures
            old(self).after_raw(final(self), bytes@, timestamp),
    {
        let start = self.offset.unwrap() as usize;
        let bit = self.bit.unwrap() as usize;
        let word = i16_from_le_bytes(bytes[start], bytes[start + 1]);
        let new_val = get_bit16(word, bit);
        if new_val != self.value {
            self.value = new_val;
            self.status = Status::Good;
            self.timestamp = timestamp;
            self.is_changed = true;
        }
    }
}

impl ParsePoint for S7ParseBool {
    open spec fn ready(&self) -> bool {
        &&& self.offset is Some
        &&& self.bit is Some
        &&& self.bit.unwrap() < 16
    }

    open spec fn fits(&self, len: nat) -> bool {
        self.offset.unwrap() + 2 <= len
    }

    open spec fn next_spec(&self, next: &Self, bytes: Seq<u8>, timestamp: NaiveDateTime, res: Option<PointType>) -> bool {
        &&& self.after_raw(&S7ParseBool { is_changed: self.is_changed || s7_bit(bytes, self.start(), self.bit_no()) != self.value, ..*next }, bytes, timestamp)
        &&& !next.is_changed
        &&& if self.is_changed || s7_bit(bytes, self.start(), self.bit_no()) != self.value {
            res is Some && is_bool_point(res.unwrap(), next.tx_id, next.name@, next.value, next.status, Cot::Inf, next.timestamp)
        } else {
            res is None
        }
    }

    open spec fn status_spec(&self, next: &Self, status: Status, res: Option<PointType>) -> bool {
        &&& self.same_config(next)
        &&& next.value == self.value
        &&& next.status == status
        &&& (self.status == status ==> next.timestamp == self.timestamp)
        &&& !next.is_changed
        &&& if self.status != status || self.is_changed {
            res is Some && is_bool_point(res.unwrap(), self.tx_id, self.name@, self.value, status, Cot::Inf, next.timestamp)
        } else {
            res is None
        }
    }

    fn is_ready(&self) -> (res: bool) {
        self.offset.is_some() && match self.bit { Some(b) => b < 16, None => false }
    }

    fn fits_len(&self, len: usize) -> (res: bool) {
        match self.offset {
            Some(o) => (o as u64) + 2 <= (len as u64),
            None => false,
        }
    }

    fn next_simple(&mut self, bytes: &[u8]) -> (res: Option<PointType>)
        ensures
            exists|t: NaiveDateTime| old(self).after_raw(final(self), bytes@, t),
            final(self).state_point(res),
    {
        let timestamp = utc_now();
        self.add_raw(bytes, timestamp);
        self.to_point()
    }

    fn next(&mut self, bytes: &[u8], timestamp: NaiveDateTime) -> (res: Option<PointType>)
        ensures
            old(self).after_raw(&S7ParseBool { is_changed: old(self).is_changed || s7_bit(bytes@, old(self).start(), old(self).bit_no()) != old(self).value, ..*final(self) }, bytes@, timestamp),
            !final(self).is_changed,
            if old(self).is_changed || s7_bit(bytes@, old(self).start(), old(self).bit_no()) != old(self).value {
                res is Some && is_bool_point(res.unwrap(), final(self).tx_id, final(self).name@, final(self).value, final(self).status, Cot::Inf, final(self).timestamp)
            } else {
                res is None
            },
    {
        self.add_raw(bytes, timestamp);
        let res = self.to_point();
        if res.is_some() {
            self.is_changed = false;
        }
        res
    }

    fn next_status(&mut self, status: Status) -> (res: Option<PointType>)
        ensures
            old(self).same_config(final(self)),
            final(self).value == old(self).value,
            final(self).status == status,
            old(self).status == status ==> final(self).timestamp == old(self).timestamp,
            !final(self).is_changed,
            if old(self).status != status || old(self).is_changed {
                res is Some && is_bool_point(res.unwrap(), old(self).tx_id, old(self).name@, old(self).value, status, Cot::Inf, final(self).timestamp)
            } else {
                res is None
            },
    {
        if self.status != status {
            self.status = status;
            self.timestamp = utc_now();
            self.is_changed = true;
        }
        let res = self.to_point();
        if res.is_some() {
            self.is_changed = false;
        }
        res
    }

    fn is_changed(&self) -> (res: bool)
        ensures
            res == self.is_changed,
    {
        self.is_changed
    }

    open spec fn offset_of(&self) -> Option<u32> {
        self.offset
    }

    fn address(&self) -> (res: PointConfigAddress)
        ensures
            res.offset == self.offset,
            res.bit == self.bit,
    {
        PointConfigAddress { offset: self.offset, bit: self.bit }
    }
}

/// Reading the same data twice gives the point at most once: the second
/// reading finds no change.
pub proof fn law_bool_no_repeat(a: S7ParseBool, b: S7ParseBool, c: S7ParseBool, bytes: Seq<u8>, t1: NaiveDateTime, t2: NaiveDateTime, r1: Option<PointType>, r2: Option<PointType>)
    requires
        a.next_spec(&b, bytes, t1, r1),
        b.next_spec(&c, bytes, t2, r2),
    ensures
        r2 is None,
{
}

} // verus!
