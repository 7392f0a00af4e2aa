//! A Bool point held in one bit of a 16-bit word of the SLMP device.
use vstd::prelude::*;
use chrono::NaiveDateTime;
use crate::clock::utc_now;
use crate::point::{is_bool_point, Bool, Cot, Point, PointType, Status};
use crate::point_config::{PointConfig, PointConfigAddress, PointConfigHistory, PointConfigType};
use crate::services::slmp_client::parse_point::ParsePoint;
use crate::word::{bit_of, change_bit, get_bit, i16_from_le_bytes, i16_le, i16_to_le_bytes, i16_le_hi, i16_le_lo, i16_try_from, lemma_with_bit, with_bit};
use crate::text::{debug_str, debug_text};

verus! {

/// A Bool value as it is written in a message: "true" or "false".
pub open spec fn bool_text(b: bool) -> Seq<char> {
    if b { "true"@ } else { "false"@ }
}

/// The name of a point's type, as `Debug` writes its configured type.
pub open spec fn point_type_text(p: PointType) -> Seq<char> {
    match p {
        PointType::Bool(_) => "Bool"@,
        PointType::Int(_) => "Int"@,
        PointType::Real(_) => "Real"@,
        PointType::Double(_) => "Double"@,
        PointType::String(_) => "String"@,
    }
}

/// Returns the name of a point's type.
pub fn point_type_str(p: &PointType) -> (res: &'static str)
    ensures
        res@ == point_type_text(*p),
{
    match p {
        PointType::Bool(_) => "Bool",
        PointType::Int(_) => "Int",
        PointType::Real(_) => "Real",
        PointType::Double(_) => "Double",
        PointType::String(_) => "String",
    }
}

/// Used for parsing a configured Bool point from the bytes read from the
/// device. The whole word holding the bit is kept in `value`.
#[derive(Debug, Clone)]
pub struct SlmpParseBool {
    pub id: String,
    pub type_: PointConfigType,
    pub tx_id: usize,
    pub name: String,
    pub value: i64,
    pub status: Status,
    pub offset: Option<u32>,
    pub bit: Option<u8>,
    pub history: PointConfigHistory,
    pub alarm: Option<u8>,
    pub comment: Option<String>,
    pub timestamp: NaiveDateTime,
    pub is_changed: bool,
}

/// What the word at `start` of `bytes` gives for bit `bit`, or `None` when
/// the word lies beyond the end of `bytes`.
pub open spec fn read_bit(bytes: Seq<u8>, start: int, bit: u64) -> Option<bool> {
    if start + 2 <= bytes.len() {
        Some(bit_of(i16_le(bytes[start], bytes[start + 1]) as i64, bit))
    } else {
        None
    }
}

impl SlmpParseBool {
    /// Size in bytes of the point in the device address area.
    pub const SIZE: usize = 2;

    /// Whether the value or the status changed since a point was last returned.
    pub open spec fn changed(&self) -> bool {
        self.is_changed
    }

    /// The configured bit number.
    pub open spec fn bit_no(&self) -> u64 {
        self.bit.unwrap() as u64
    }

    /// The configured byte offset.
    pub open spec fn start(&self) -> int {
        self.offset.unwrap() as int
    }

    /// The point that the current state gives, when it changed.
    pub open spec fn state_point(&self, p: Option<PointType>) -> bool {
        if self.changed() {
            &&& p is Some
            &&& is_bool_point(p.unwrap(), self.tx_id, self.name@, bit_of(self.value, self.bit_no()), self.status, Cot::Inf, self.timestamp)
        } else {
            p is None
        }
    }

    /// The text identifying the parser in its messages.
    pub open spec fn ident(&self) -> Seq<char> {
        self.id@
    }

    /// `next` holds the configuration of `self`.
    pub open spec fn same_config(&self, next: &Self) -> bool {
        &&& next.ident() == self.ident()
        &&& next.type_ == self.type_
        &&& next.tx_id == self.tx_id
        &&& next.name == self.name
        &&& next.offset == self.offset
        &&& next.bit == self.bit
        &&& next.history == self.history
        &&& next.alarm == self.alarm
        &&& next.comment == self.comment
    }

    /// Whether applying `bytes` changes the value or the status to Good.
    pub open spec fn raw_changes(&self, bytes: Seq<u8>) -> bool {
        match read_bit(bytes, self.start(), self.bit_no()) {
            Some(nv) => nv != bit_of(self.value, self.bit_no()) || self.status != Status::Good,
            None => false,
        }
    }

    /// The value, status and timestamp after the bytes `bytes` were applied
    /// with `timestamp`: a new bit or a status other than Good takes the new
    /// bit, status Good and the timestamp; bytes too short for the word make
    /// the status Invalid.
    pub open spec fn after_raw(&self, next: &Self, bytes: Seq<u8>, timestamp: NaiveDateTime) -> bool {
        &&& self.same_config(next)
        &&& match read_bit(bytes, self.start(), self.bit_no()) {
            Some(nv) => if self.raw_changes(bytes) {
                &&& next.value == with_bit(self.value, self.bit_no(), nv)
                &&& next.status == Status::Good
                &&& next.timestamp == timestamp
            } else {
                &&& next.value == self.value
                &&& next.status == self.status
                &&& next.timestamp == self.timestamp
            },
            None => {
                &&& next.value == self.value
                &&& next.status == Status::Invalid
                &&& next.timestamp == self.timestamp
            },
        }
    }

    /// Creates a new instance for the point `name` configured by `config`.
    pub fn new(tx_id: usize, name: String, config: &PointConfig) -> (res: SlmpParseBool)
        ensures
            res.type_ == config.type_,
            res.tx_id == tx_id,
            res.name == name,
            res.value == 0,
            res.status == Status::Invalid,
            !res.changed(),
            res.offset == config.spec_address().offset,
            res.bit == config.spec_address().bit,
            res.history == config.history,
            res.alarm == config.alarm,
            res.comment == config.comment,
    {
        proof { reveal_strlit("SlmpParseBool"); }
        let address = config.address_or_empty();
        SlmpParseBool {
            id: "SlmpParseBool".to_owned(),
            type_: config.type_,
            tx_id,
            name,
            value: 0i64,
            status: Status::Invalid,
            offset: address.offset,
            bit: address.bit,
            history: config.history,
            alarm: config.alarm,
            comment: config.comment.clone(),
            timestamp: utc_now(),
            is_changed: false,
        }
    }

    /// Reads bit `bit` of the word at `start` of `bytes`.
    fn convert(&self, bytes: &[u8], start: usize, bit: usize) -> (res: Result<bool, String>)
        requires
            bit < 64,
        ensures
            match read_bit(bytes@, start as int, bit as u64) {
                Some(b) => res == Ok::<bool, String>(b),
                None => res is Err,
            },
    {
        if bytes.len() >= 2 && start <= bytes.len() - 2 {
            let w = i16_from_le_bytes(bytes[start], bytes[start + 1]);
            Ok(get_bit(w as i64, bit))
        } else {
            let mut message = self.id.clone();
            proof { reveal_strlit(".convert | Index out of range for the slice"); }
            message.append(".convert | Index out of range for the slice");
            Err(message)
        }
    }

    /// Returns the point if the value or status changed.
    fn to_point(&self) -> (res: Option<PointType>)
        requires
            self.ready(),
        ensures
            self.state_point(res),
    {
        if self.is_changed {
            let bit = self.bit.unwrap();
            Some(PointType::Bool(Point::new(
                self.tx_id,
                self.name.as_str(),
                Bool(get_bit(self.value, bit as usize)),
                self.status,
                Cot::Inf,
                self.timestamp,
            )))
        } else {
            None
        }
    }

    /// Applies the bytes read from the device.
    fn add_raw(&mut self, bytes: &[u8], timestamp: NaiveDateTime)
        requires
            old(self).ready(),
        ensures
            old(self).after_raw(final(self), bytes@, timestamp),
            final(self).changed() == (old(self).changed() || old(self).raw_changes(bytes@)),
    {
        let bit = self.bit.unwrap() as usize;
        let result = self.convert(bytes, self.offset.unwrap() as usize, bit);
        match result {
            Ok(new_val) => {
                let status = Status::Good;
                let self_value = get_bit(self.value, bit);
                if new_val != self_value || self.status != status {
                    self.value = change_bit(self.value, new_val, bit);
                    self.status = status;
                    self.timestamp = timestamp;
                    self.is_changed = true;
                }
            }
            Err(_) => {
                self.status = Status::Invalid;
            }
        }
    }
}

impl ParsePoint for SlmpParseBool {
    open spec fn ready(&self) -> bool {
        &&& self.offset is Some
        &&& self.bit is Some
        &&& self.bit.unwrap() < 64
    }

    fn type_(&self) -> (res: PointConfigType)
        ensures
            res == self.type_,
    {
        self.type_
    }

    fn next_simple(&mut self, bytes: &[u8]) -> (res: Option<PointType>)
        ensures
            exists|t: NaiveDateTime| old(self).after_raw(final(self), bytes@, t),
            final(self).changed() == (old(self).changed() || old(self).raw_changes(bytes@)),
            final(self).state_point(res),
    {
        let timestamp = utc_now();
        self.add_raw(bytes, timestamp);
        self.to_point()
    }

    fn next(&mut self, bytes: &[u8], timestamp: NaiveDateTime) -> (res: Option<PointType>)
        ensures
            old(self).after_raw(final(self), bytes@, timestamp),
            !final(self).changed(),
            if old(self).changed() || old(self).raw_changes(bytes@) {
                &&& res is Some
                &&& is_bool_point(res.unwrap(), final(self).tx_id, final(self).name@, bit_of(final(self).value, final(self).bit_no()), final(self).status, Cot::Inf, final(self).timestamp)
            } else {
                res is None
            },
    {
        self.add_raw(bytes, timestamp);
        let res = self.to_point();
        if res.is_some() {
            self.is_changed = false;
        }
        res
    }

    fn next_status(&mut self, status: Status) -> (res: Option<PointType>)
        ensures
            old(self).same_config(final(self)),
            final(self).value == old(self).value,
            final(self).status == status,
            old(self).status == status ==> final(self).timestamp == old(self).timestamp,
            !final(self).changed(),
            if old(self).status != status {
                res is Some && is_bool_point(res.unwrap(), old(self).tx_id, old(self).name@, bit_of(old(self).value, old(self).bit_no()), status, Cot::Inf, final(self).timestamp)
            } else {
                old(self).state_point(res)
            },
    {
        if self.status != status {
            self.status = status;
            self.timestamp = utc_now();
            self.is_changed = true;
        }
        let res = self.to_point();
        if res.is_some() {
            self.is_changed = false;
        }
        res
    }

    fn is_changed(&self) -> (res: bool)
        ensures
            res == self.changed(),
    {
        self.is_changed
    }

    fn address(&self) -> (res: PointConfigAddress)
        ensures
            res.offset == self.offset,
            res.bit == self.bit,
    {
        PointConfigAddress { offset: self.offset, bit: self.bit }
    }

    fn size(&self) -> (res: usize)
        ensures
            res == 2,
    {
        Self::SIZE
    }

    /// The bytes that write the Bool point `point`: the kept word with this
    /// point's bit set to the point's value, little-endian. The error where
    /// the word does not fit into an `i16` reads "{id}.write | '{value}' to
    /// i16 conversion error: {error:#?} in the parse point: {name:#?}"; the
    /// one for a point of another type "{id}.write | Point of type 'Bool'
    /// expected, but found '{type:?}' in the parse point: {name:#?}".
    fn to_bytes(&self, point: &PointType) -> (res: Result<Vec<u8>, String>)
        ensures
            match point {
                PointType::Bool(p) => {
                    let v = with_bit(self.value, self.bit_no(), p.value.0);
                    if -32768 <= v <= 32767 {
                        res is Ok && res.unwrap()@ == seq![i16_le_lo(v as i16), i16_le_hi(v as i16)]
                    } else {
                        res matches Err(e) && exists|d: Seq<char>| e@ == self.id@ + ".write | '"@ + bool_text(p.value.0)
                            + "' to i16 conversion error: "@ + d + " in the parse point: "@ + debug_text(self.name@)
                    }
                },
                _ => res matches Err(e) && e@ == self.id@ + ".write | Point of type 'Bool' expected, but found '"@
                    + point_type_text(*point) + "' in the parse point: "@ + debug_text(self.name@),
            },
    {
        match point {
            PointType::Bool(p) => {
                let value = change_bit(self.value, p.value.0, self.bit.unwrap() as usize);
                match i16_try_from(value) {
                    Ok(v) => {
                        let (lo, hi) = i16_to_le_bytes(v);
                        let mut bytes: Vec<u8> = Vec::new();
                        bytes.push(lo);
                        bytes.push(hi);
                        Ok(bytes)
                    }
                    Err(err) => {
                        let mut message = self.id.clone();
                        message.append(".write | '");
                        message.append(if p.value.0 { "true" } else { "false" });
                        message.append("' to i16 conversion error: ");
                        message.append(err.as_str());
                        message.append(" in the parse point: ");
                        let name = debug_str(self.name.as_str());
                        message.append(name.as_str());
                        assert(message@ =~= self.id@ + ".write | '"@ + bool_text(p.value.0)
                            + "' to i16 conversion error: "@ + err@ + " in the parse point: "@ + debug_text(self.name@));
                        Err(message)
                    }
                }
            }
            _ => {
                let mut message = self.id.clone();
                message.append(".write | Point of type 'Bool' expected, but found '");
                message.append(point_type_str(point));
                message.append("' in the parse point: ");
                let name = debug_str(self.name.as_str());
                message.append(name.as_str());
                assert(message@ =~= self.id@ + ".write | Point of type 'Bool' expected, but found '"@
                    + point_type_text(*point) + "' in the parse point: "@ + debug_text(self.name@));
                Err(message)
            }
        }
    }
}

/// Reading the same data twice gives the point at most once: after the
/// data was applied, the same data offers no change.
pub proof fn law_slmp_bool_no_repeat(a: SlmpParseBool, b: SlmpParseBool, bytes: Seq<u8>, t: NaiveDateTime)
    requires
        a.bit is Some,
        a.bit_no() < 64,
        a.after_raw(&b, bytes, t),
    ensures
        !b.raw_changes(bytes),
{
    match read_bit(bytes, a.start(), a.bit_no()) {
        Some(nv) => {
            if a.raw_changes(bytes) {
                lemma_with_bit(a.value, a.bit_no(), nv, a.bit_no());
            }
        }
        None => {}
    }
}

} // verus!
