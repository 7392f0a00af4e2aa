//! A PROFINET data block: the range of an S7 device's memory read at once,
//! and the parse points that turn it into points.
use vstd::prelude::*;
use std::time::Duration;
use chrono::NaiveDateTime;
use crate::point::{PointType, Status};
use crate::text::{debug_str, debug_text, str_eq};
use crate::word::{be_byte, to_be_bytes};
use super::parse_point::ParsePoint;
use crate::services::device::YieldStatus;

verus! {

/// The index of the first entry named `name`.
pub open spec fn index_of<P>(points: Seq<(String, P)>, name: Seq<char>) -> Option<int> {
    if exists|i: int| 0 <= i < points.len() && #[trigger] points[i].0@ == name {
        Some(choose|i: int| 0 <= i < points.len() && points[i].0@ == name
            && forall|j: int| 0 <= j < i ==> #[trigger] points[j].0@ != name)
    } else {
        None
    }
}

/// The points given, in their order.
pub open spec fn yielded(results: Seq<Option<PointType>>) -> Seq<PointType>
    decreases results.len(),
{
    if results.len() == 0 {
        Seq::empty()
    } else {
        let prev = yielded(results.drop_last());
        match results.last() {
            Some(p) => prev.push(p),
            None => prev,
        }
    }
}

/// The size and the big-endian bytes that writing `point` puts into the
/// device: an Int point its value's 8 bytes, of which 2 are written; a
/// Real point its value's 4 bytes; a Double point its value's 8 bytes, of
/// which 4 are written. Bool and String points are not written.
pub open spec fn write_bytes(point: PointType) -> Option<(u32, Seq<u8>)> {
    match point {
        PointType::Int(p) => Some((2u32, Seq::new(8, |k: int| be_byte(p.value as u64, 8, k)))),
        PointType::Real(p) => Some((4u32, Seq::new(4, |k: int| be_byte(p.value as u64, 4, k)))),
        PointType::Double(p) => Some((4u32, Seq::new(8, |k: int| be_byte(p.value, 8, k)))),
        _ => None,
    }
}

/// A PROFINET data block: the DB `number`, the range `offset .. offset + size`
/// read from it, and its parse points by name.
pub struct ProfinetDb<P> {
    pub id: String,
    pub name: String,
    pub description: String,
    pub number: u32,
    pub offset: u32,
    pub size: u32,
    pub cycle: Option<Duration>,
    pub points: Vec<(String, P)>,
}

impl<P: ParsePoint> ProfinetDb<P> {
    /// Every parse point holds an address it can read.
    pub open spec fn ready(&self) -> bool {
        forall|i: int| 0 <= i < self.points@.len() ==> #[trigger] self.points@[i].1.ready()
    }

    /// Data of `len` bytes holds every point.
    pub open spec fn fits(&self, len: nat) -> bool {
        forall|i: int| 0 <= i < self.points@.len() ==> #[trigger] self.points@[i].1.fits(len)
    }

    /// `next` holds the same names and configuration as `self`.
    pub open spec fn same_block(&self, next: &Self) -> bool {
        &&& next.id == self.id
        &&& next.name == self.name
        &&& next.number == self.number
        &&& next.offset == self.offset
        &&& next.size == self.size
        &&& next.points@.len() == self.points@.len()
        &&& forall|i: int| 0 <= i < self.points@.len() ==> (#[trigger] next.points@[i]).0 == self.points@[i].0
    }

    /// Creates a new block named "{parent}/ProfinetDb({name})".
    pub fn new(parent: &str, name: String, description: String, number: u32, offset: u32, size: u32, cycle: Option<Duration>, points: Vec<(String, P)>) -> (res: Self)
        ensures
            res.id@ == parent@ + "/ProfinetDb("@ + name@ + ")"@,
            res.name == name,
            res.description == description,
            res.number == number,
            res.offset == offset,
            res.size == size,
            res.cycle == cycle,
            res.points == points,
    {
        let mut id = parent.to_owned();
        id.append("/ProfinetDb(");
        id.append(name.as_str());
        id.append(")");
        ProfinetDb { id, name, description, number, offset, size, cycle, points }
    }

    /// Whether every parse point is ready and data of `len` bytes holds it.
    pub fn fits_len(&self, len: usize) -> (res: bool)
        ensures
            res == (self.ready() && self.fits(len as nat)),
    {
        let mut i: usize = 0;
        while i < self.points.len()
            invariant
                i <= self.points@.len(),
                forall|j: int| #![trigger self.points@[j]] 0 <= j < i ==> self.points@[j].1.ready() && self.points@[j].1.fits(len as nat),
            decreases self.points@.len() - i,
        {
            if !self.points[i].1.is_ready() {
                assert(!self.points@[i as int].1.ready());
                return false;
            }
            if !self.points[i].1.fits_len(len) {
                assert(!self.points@[i as int].1.fits(len as nat));
                return false;
            }
            i = i + 1;
        }
        true
    }

    /// Parses the data read from the block into its parse points, in their
    /// order; returns the points whose value or status changed.
    pub fn parse(&mut self, bytes: &[u8], timestamp: NaiveDateTime) -> (res: Vec<PointType>)
        requires
            old(self).ready(),
            old(self).fits(bytes@.len()),
        ensures
            final(self).ready(),
            old(self).same_block(final(self)),
            exists|rs: Seq<Option<PointType>>| #![trigger yielded(rs)] {
                &&& rs.len() == old(self).points@.len()
                &&& forall|i: int| 0 <= i < rs.len() ==> #[trigger] old(self).points@[i].1.next_spec(&final(self).points@[i].1, bytes@, timestamp, rs[i])
                &&& res@ == yielded(rs)
            },
    {
        let ghost start = *self;
        let ghost mut rs: Seq<Option<PointType>> = Seq::empty();
        let mut res: Vec<PointType> = Vec::new();
        let n = self.points.len();
        let mut i: usize = 0;
        while i < n
            invariant
                n == self.points@.len(),
                i <= n,
                rs.len() == i,
                start.same_block(self),
                start.ready(),
                start.fits(bytes@.len()),
                forall|j: int| 0 <= j < n ==> #[trigger] self.points@[j].1.ready(),
                forall|j: int| i <= j < n ==> #[trigger] self.points@[j] == start.points@[j],
                forall|j: int| 0 <= j < i ==> #[trigger] start.points@[j].1.next_spec(&self.points@[j].1, bytes@, timestamp, rs[j]),
                res@ == yielded(rs),
            decreases n - i,
        {
            let ghost before = self.points@;
            assert(self.points@[i as int].1.fits(bytes@.len()));
            let r = self.points[i].1.next(bytes, timestamp);
            proof {
                assert(rs.push(r).drop_last() =~= rs);
                rs = rs.push(r);
            }
            match r {
                Some(p) => { res.push(p); }
                None => {}
            }
            i = i + 1;
        }
        res
    }

    /// The index of the parse point named `name`.
    fn find(&self, name: &str) -> (res: Option<usize>)
        ensures
            match res {
                Some(i) => i < self.points@.len() && index_of(self.points@, name@) == Some(i as int),
                None => index_of(self.points@, name@) is None,
            },
    {
        let mut i: usize = 0;
        while i < self.points.len()
            invariant
                i <= self.points@.len(),
                forall|j: int| 0 <= j < i ==> #[trigger] self.points@[j].0@ != name@,
            decreases self.points@.len() - i,
        {
            if str_eq(self.points[i].0.as_str(), name) {
                proof {
                    let k = choose|k: int| 0 <= k < self.points@.len() && self.points@[k].0@ == name@
                        && forall|j: int| 0 <= j < k ==> #[trigger] self.points@[j].0@ != name@;
                    if k < i {
                        assert(self.points@[k].0@ != name@);
                    }
                    if k > i {
                        assert(self.points@[i as int].0@ != name@);
                    }
                }
                return Some(i);
            }
            i = i + 1;
        }
        None
    }

    /// What writing `point` into the block needs: the offset of its parse
    /// point, the number of bytes to write and the bytes (see `write_bytes`).
    /// An empty error where the block has no parse point of that name; an
    /// error for a Bool or String point, which cannot be written.
    pub fn write_request(&self, point: &PointType) -> (res: Result<(u32, u32, Vec<u8>), String>)
        requires
            self.ready(),
        ensures
            match index_of(self.points@, point.spec_name()) {
                None => res matches Err(e) && e@ == Seq::<char>::empty(),
                Some(i) => match write_bytes(*point) {
                    Some((size, bytes)) => res matches Ok((off, sz, bs))
                        && Some(off) == self.points@[i].1.offset_of() && sz == size && bs@ == bytes,
                    None => res matches Err(e) && e@ == self.id@ + (if point is Bool {
                            ".write | Write 'Bool' to the S7 Device - not implemented, point: "@
                        } else {
                            ".write | Write 'String' to the S7 Device - not implemented, point: "@
                        }) + debug_text(point.spec_name()),
                },
            },
    {
        match self.find(point.name()) {
            None => Err(String::new()),
            Some(i) => {
                proof {
                    assert(self.points@[i as int].1.ready());
                }
                let address = self.points[i].1.address();
                let offset = address.offset.unwrap();
                match point {
                    PointType::Int(p) => {
                        let bytes = to_be_bytes(p.value as u64, 8);
                        assert(bytes@ =~= Seq::new(8, |k: int| be_byte(p.value as u64, 8, k)));
                        Ok((offset, 2, bytes))
                    }
                    PointType::Real(p) => {
                        let bytes = to_be_bytes(p.value as u64, 4);
                        assert(bytes@ =~= Seq::new(4, |k: int| be_byte(p.value as u64, 4, k)));
                        Ok((offset, 4, bytes))
                    }
                    PointType::Double(p) => {
                        let bytes = to_be_bytes(p.value, 8);
                        assert(bytes@ =~= Seq::new(8, |k: int| be_byte(p.value, 8, k)));
                        Ok((offset, 4, bytes))
                    }
                    PointType::Bool(p) => {
                        let mut m = self.id.clone();
                        m.append(".write | Write 'Bool' to the S7 Device - not implemented, point: ");
                        let d = debug_str(p.name.as_str());
                        m.append(d.as_str());
                        Err(m)
                    }
                    PointType::String(p) => {
                        let mut m = self.id.clone();
                        m.append(".write | Write 'String' to the S7 Device - not implemented, point: ");
                        let d = debug_str(p.name.as_str());
                        m.append(d.as_str());
                        Err(m)
                    }
                }
            }
        }
    }
}

impl<P: ParsePoint> YieldStatus for ProfinetDb<P> {
    open spec fn wf_db(&self) -> bool {
        self.ready()
    }

    /// The block keeps its configuration, and each parse point took the
    /// status in turn, the points that changed given in order.
    open spec fn status_yield(&self, next: &Self, status: Status, res: Seq<PointType>) -> bool {
        &&& self.same_block(next)
        &&& exists|rs: Seq<Option<PointType>>| #![trigger yielded(rs)] {
            &&& rs.len() == self.points@.len()
            &&& forall|i: int| 0 <= i < rs.len() ==> #[trigger] self.points@[i].1.status_spec(&next.points@[i].1, status, rs[i])
            &&& res == yielded(rs)
        }
    }

    /// Applies `status` to the parse points, in their order; returns the
    /// points that changed.
    fn yield_status(&mut self, status: Status) -> (res: Vec<PointType>) {
        let ghost start = *self;
        let ghost mut rs: Seq<Option<PointType>> = Seq::empty();
        let mut res: Vec<PointType> = Vec::new();
        let n = self.points.len();
        let mut i: usize = 0;
        while i < n
            invariant
                n == self.points@.len(),
                i <= n,
                rs.len() == i,
                start.same_block(self),
                start.ready(),
                forall|j: int| 0 <= j < n ==> #[trigger] self.points@[j].1.ready(),
                forall|j: int| 0 <= j < n ==> #[trigger] start.points@[j].1.ready(),
                forall|j: int| i <= j < n ==> #[trigger] self.points@[j] == start.points@[j],
                forall|j: int| 0 <= j < i ==> #[trigger] start.points@[j].1.status_spec(&self.points@[j].1, status, rs[j]),
                res@ == yielded(rs),
            decreases n - i,
        {
            let r = self.points[i].1.next_status(status);
            proof {
                assert(rs.push(r).drop_last() =~= rs);
                rs = rs.push(r);
            }
            match r {
                Some(p) => { res.push(p); }
                None => {}
            }
            i = i + 1;
        }
        assert(self.ready());
        assert(exists|rs: Seq<Option<PointType>>| #![trigger yielded(rs)] {
            &&& rs.len() == start.points@.len()
            &&& forall|i: int| 0 <= i < rs.len() ==> #[trigger] start.points@[i].1.status_spec(&self.points@[i].1, status, rs[i])
            &&& res@ == yielded(rs)
        });
        res
    }

}

/// The number that big-endian bytes stand for.
pub open spec fn be_value(bytes: Seq<u8>) -> int
    decreases bytes.len(),
{
    if bytes.len() == 0 { 0 } else { be_value(bytes.drop_last()) * 256 + bytes.last() }
}

/// The low byte of `v >> shift`, as a number.
proof fn lemma_byte(v: u64, shift: u64)
    requires
        shift < 64,
    ensures
        ((v >> shift) & 0xffu64) < 256,
{
    assert(((v >> shift) & 0xffu64) < 256u64) by (bit_vector);
}

/// What a write of a Real point asks: all 4 bytes of its 32-bit value are
/// written, and they are the value in big-endian order (read back, they
/// give the value).
pub proof fn law_real_write_is_whole_value(p: crate::point::Point<u32>)
    ensures
        write_bytes(PointType::Real(p)) matches Some((size, bytes)) && size == 4 && bytes.len() == size
            && be_value(bytes) == p.value,
{
    reveal_with_fuel(be_value, 5);
    let v = p.value as u64;
    let bytes = Seq::new(4, |k: int| be_byte(v, 4, k));
    lemma_byte(v, 24);
    lemma_byte(v, 16);
    lemma_byte(v, 8);
    lemma_byte(v, 0);
    let c0 = (v >> 24u64) & 0xffu64;
    let c1 = (v >> 16u64) & 0xffu64;
    let c2 = (v >> 8u64) & 0xffu64;
    let c3 = (v >> 0u64) & 0xffu64;
    assert(bytes =~= seq![c0 as u8, c1 as u8, c2 as u8, c3 as u8]);
    let s = seq![c0 as u8, c1 as u8, c2 as u8, c3 as u8];
    assert(s.drop_last() =~= seq![c0 as u8, c1 as u8, c2 as u8]);
    assert(s.drop_last().drop_last() =~= seq![c0 as u8, c1 as u8]);
    assert(s.drop_last().drop_last().drop_last() =~= seq![c0 as u8]);
    assert(s.drop_last().drop_last().drop_last().drop_last() =~= Seq::<u8>::empty());
    assert(be_value(s) == ((c0 * 256 + c1) * 256 + c2) * 256 + c3);
    assert(c0 * 16777216 + c1 * 65536 + c2 * 256 + c3 == v) by (bit_vector)
        requires
            v < 0x1_0000_0000u64,
            c0 == (v >> 24u64) & 0xffu64,
            c1 == (v >> 16u64) & 0xffu64,
            c2 == (v >> 8u64) & 0xffu64,
            c3 == (v >> 0u64) & 0xffu64;
}

/// What a write of an Int point asks: its value's 8 big-endian bytes
/// (which, read back, give the value as an unsigned 64-bit number), of
/// which the S7 INT width, 2 bytes, is written.
pub proof fn law_int_write_request(p: crate::point::Point<i64>)
    ensures
        write_bytes(PointType::Int(p)) matches Some((size, bytes)) && size == 2 && bytes.len() == 8
            && be_value(bytes) == p.value as u64,
{
    reveal_with_fuel(be_value, 9);
    let v = p.value as u64;
    let bytes = Seq::new(8, |k: int| be_byte(v, 8, k));
    lemma_byte(v, 56);
    lemma_byte(v, 48);
    lemma_byte(v, 40);
    lemma_byte(v, 32);
    lemma_byte(v, 24);
    lemma_byte(v, 16);
    lemma_byte(v, 8);
    lemma_byte(v, 0);
    let c0 = (v >> 56u64) & 0xffu64;
    let c1 = (v >> 48u64) & 0xffu64;
    let c2 = (v >> 40u64) & 0xffu64;
    let c3 = (v >> 32u64) & 0xffu64;
    let c4 = (v >> 24u64) & 0xffu64;
    let c5 = (v >> 16u64) & 0xffu64;
    let c6 = (v >> 8u64) & 0xffu64;
    let c7 = (v >> 0u64) & 0xffu64;
    let s = seq![c0 as u8, c1 as u8, c2 as u8, c3 as u8, c4 as u8, c5 as u8, c6 as u8, c7 as u8];
    assert(bytes =~= s);
    assert(s.drop_last() =~= seq![c0 as u8, c1 as u8, c2 as u8, c3 as u8, c4 as u8, c5 as u8, c6 as u8]);
    assert(s.drop_last().drop_last() =~= seq![c0 as u8, c1 as u8, c2 as u8, c3 as u8, c4 as u8, c5 as u8]);
    assert(s.drop_last().drop_last().drop_last() =~= seq![c0 as u8, c1 as u8, c2 as u8, c3 as u8, c4 as u8]);
    assert(s.drop_last().drop_last().drop_last().drop_last() =~= seq![c0 as u8, c1 as u8, c2 as u8, c3 as u8]);
    assert(s.drop_last().drop_last().drop_last().drop_last().drop_last() =~= seq![c0 as u8, c1 as u8, c2 as u8]);
    assert(s.drop_last().drop_last().drop_last().drop_last().drop_last().drop_last() =~= seq![c0 as u8, c1 as u8]);
    assert(s.drop_last().drop_last().drop_last().drop_last().drop_last().drop_last().drop_last() =~= seq![c0 as u8]);
    assert(s.drop_last().drop_last().drop_last().drop_last().drop_last().drop_last().drop_last().drop_last() =~= Seq::<u8>::empty());
    assert(be_value(s) == ((((((c0 * 256 + c1) * 256 + c2) * 256 + c3) * 256 + c4) * 256 + c5) * 256 + c6) * 256 + c7);
    assert(c0 as u128 * 0x100_0000_0000_0000u128 + c1 as u128 * 0x1_0000_0000_0000u128 + c2 as u128 * 0x100_0000_0000u128
        + c3 as u128 * 0x1_0000_0000u128 + c4 as u128 * 0x100_0000u128 + c5 as u128 * 0x1_0000u128
        + c6 as u128 * 0x100u128 + c7 as u128 == v as u128) by (bit_vector)
        requires
            c0 == (v >> 56u64) & 0xffu64,
            c1 == (v >> 48u64) & 0xffu64,
            c2 == (v >> 40u64) & 0xffu64,
            c3 == (v >> 32u64) & 0xffu64,
            c4 == (v >> 24u64) & 0xffu64,
            c5 == (v >> 16u64) & 0xffu64,
            c6 == (v >> 8u64) & 0xffu64,
            c7 == (v >> 0u64) & 0xffu64;
}

} // verus!
