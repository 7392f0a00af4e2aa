use vstd::prelude::*;
use chrono::NaiveDateTime;
use crate::point::{PointType, Status};
use crate::point_config::PointConfigAddress;

verus! {

/// Returns the points parsed from the data slice read from the S7 device.
pub trait ParsePoint {
    /// The parse point holds an address it can read.
    spec fn ready(&self) -> bool;

    /// Data of `len` bytes holds the point.
    spec fn fits(&self, len: nat) -> bool;

    /// `next` and `res` are the parse point and the point (if any) that
    /// parsing `bytes` at `timestamp` gives from `self`.
    spec fn next_spec(&self, next: &Self, bytes: Seq<u8>, timestamp: NaiveDateTime, res: Option<PointType>) -> bool;

    /// `next` and `res` are the parse point and the point (if any) that
    /// applying `status` gives from `self`.
    spec fn status_spec(&self, next: &Self, status: Status, res: Option<PointType>) -> bool;

    /// Whether the parse point holds an address it can read.
    fn is_ready(&self) -> (res: bool)
        ensures
            res == self.ready();

    /// Whether data of `len` bytes holds the point.
    fn fits_len(&self, len: usize) -> (res: bool)
        requires
            self.ready(),
        ensures
            res == self.fits(len as nat);

    /// Parses `bytes` with the current time; returns the point if its value
    /// or status changed.
    fn next_simple(&mut self, bytes: &[u8]) -> (res: Option<PointType>)
        requires
            old(self).ready(),
            old(self).fits(bytes@.len()),
        ensures
            final(self).ready(),
            forall|n: nat| final(self).fits(n) == old(self).fits(n);

    /// Parses `bytes` with the given timestamp; returns the point if its
    /// value or status changed.
    fn next(&mut self, bytes: &[u8], timestamp: NaiveDateTime) -> (res: Option<PointType>)
        requires
            old(self).ready(),
            old(self).fits(bytes@.len()),
        ensures
            final(self).ready(),
            forall|n: nat| final(self).fits(n) == old(self).fits(n),
            old(self).next_spec(final(self), bytes@, timestamp, res);

    /// Applies `status`; returns the point if it changed.
    fn next_status(&mut self, status: Status) -> (res: Option<PointType>)
        requires
            old(self).ready(),
        ensures
            final(self).ready(),
            forall|n: nat| final(self).fits(n) == old(self).fits(n),
            old(self).status_spec(final(self), status, res);

    /// Returns true if the value or status was updated since the point was
    /// last returned.
    fn is_changed(&self) -> bool;

    /// The offset of the point in the data block.
    spec fn offset_of(&self) -> Option<u32>;

    /// Returns the protocol specific address; a ready parse point has an
    /// offset.
    fn address(&self) -> (res: PointConfigAddress)
        ensures
            res.offset == self.offset_of(),
            self.ready() ==> res.offset is Some;
}

} // verus!
