use vstd::prelude::*;
use chrono::NaiveDateTime;
use crate::point::{PointType, Status};
use crate::point_config::{PointConfigAddress, PointConfigType};

verus! {

/// Turns the data read from an SLMP device into points and points to be
/// written into the device's bytes.
pub trait ParsePoint {
    /// The parse point holds an address it can read.
    spec fn ready(&self) -> bool;

    /// Returns the configured type of the point.
    fn type_(&self) -> PointConfigType;

    /// Parses `bytes` with the current time; returns the point if its value
    /// or status changed (the change stays marked).
    fn next_simple(&mut self, bytes: &[u8]) -> (res: Option<PointType>)
        requires
            old(self).ready(),
        ensures
            final(self).ready();

    /// Parses `bytes` with the given timestamp; returns the point if its
    /// value or status changed, and clears the change mark.
    fn next(&mut self, bytes: &[u8], timestamp: NaiveDateTime) -> (res: Option<PointType>)
        requires
            old(self).ready(),
        ensures
            final(self).ready();

    /// Applies `status`; returns the point if it changed.
    fn next_status(&mut self, status: Status) -> (res: Option<PointType>)
        requires
            old(self).ready(),
        ensures
            final(self).ready();

    /// Returns true if the value or status changed since the last point returned.
    fn is_changed(&self) -> bool;

    /// Returns the protocol specific address.
    fn address(&self) -> PointConfigAddress;

    /// Returns the size in bytes of the point in the device address area.
    fn size(&self) -> usize;

    /// Returns the bytes to be written to the device for `point`.
    fn to_bytes(&self, point: &PointType) -> Result<Vec<u8>, String>
        requires
            self.ready();
}

} // verus!
