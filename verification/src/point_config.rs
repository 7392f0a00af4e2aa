//! Configuration of a single point: its name, type, address on the device
//! and the options the services read from it.
use vstd::prelude::*;

verus! {

/// The value type a point is configured with.
#[derive(Debug, Clone, Copy, PartialEq, Eq, Structural)]
pub enum PointConfigType {
    Bool,
    Int,
    Real,
    Double,
    String,
    Json,
}

/// Whether a point's changes go to the history.
#[derive(Debug, Clone, Copy, PartialEq, Eq, Structural)]
pub enum PointConfigHistory {
    Off,
    Read,
    Write,
    ReadWrite,
}

/// Protocol specific address of a point: byte offset and, for bits, the
/// bit number.
#[derive(Debug, Clone, Copy, PartialEq, Eq, Structural)]
pub struct PointConfigAddress {
    pub offset: Option<u32>,
    pub bit: Option<u8>,
}

impl PointConfigAddress {
    /// An address with neither offset nor bit.
    pub fn empty() -> (res: Self)
        ensures
            res.offset is None,
            res.bit is None,
    {
        PointConfigAddress { offset: None, bit: None }
    }
}

/// Filter options of a point; the threshold and factor are held as the raw
/// bits of their `f64` values.
#[derive(Debug, Clone, Copy, PartialEq, Eq, Structural)]
pub struct PointConfigFilter {
    pub threshold: u64,
    pub factor: Option<u64>,
}

/// The configuration of a point.
#[derive(Debug, Clone)]
pub struct PointConfig {
    pub id: usize,
    pub name: String,
    pub type_: PointConfigType,
    pub history: PointConfigHistory,
    pub alarm: Option<u8>,
    pub address: Option<PointConfigAddress>,
    pub filters: Option<PointConfigFilter>,
    pub comment: Option<String>,
}

impl PointConfig {
    /// The configured address, or the empty address where none is configured.
    pub open spec fn spec_address(&self) -> PointConfigAddress {
        match self.address {
            Some(a) => a,
            None => PointConfigAddress { offset: None, bit: None },
        }
    }

    /// Returns a copy of the configuration.
    pub fn duplicate(&self) -> (res: Self)
        ensures
            res == *self,
    {
        let comment = match &self.comment {
            Some(c) => Some(c.clone()),
            None => None,
        };
        PointConfig {
            id: self.id,
            name: self.name.clone(),
            type_: self.type_,
            history: self.history,
            alarm: self.alarm,
            address: self.address,
            filters: self.filters,
            comment,
        }
    }

    /// Returns the configured address, or the empty address.
    pub fn address_or_empty(&self) -> (res: PointConfigAddress)
        ensures
            res == self.spec_address(),
    {
        match self.address {
            Some(a) => a,
            None => PointConfigAddress::empty(),
        }
    }
}

} // verus!
