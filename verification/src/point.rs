//! The point model: a named, timestamped value with its quality and the
//! cause of its transmission.
use vstd::prelude::*;
use chrono::NaiveDateTime;
use crate::text::str_eq;

verus! {

/// Quality of a point's value.
#[derive(Debug, Clone, Copy, PartialEq, Eq, Structural)]
pub enum Status {
    Good,
    Obsolete,
    TimeInvalid,
    Invalid,
    Unknown(i64),
}

/// The numeric code of a status, as it travels in a point's value.
pub open spec fn status_code(s: Status) -> i64 {
    match s {
        Status::Good => 0,
        Status::Obsolete => 2,
        Status::TimeInvalid => 3,
        Status::Invalid => 10,
        Status::Unknown(v) => v,
    }
}

impl Status {
    /// Returns the status of a code: the inverse of `code`.
    pub fn from_code(code: i64) -> (res: Status)
        ensures
            status_code(res) == code,
            res == match code { 0 => Status::Good, 2 => Status::Obsolete, 3 => Status::TimeInvalid, 10 => Status::Invalid, _ => Status::Unknown(code) },
    {
        match code {
            0 => Status::Good,
            2 => Status::Obsolete,
            3 => Status::TimeInvalid,
            10 => Status::Invalid,
            _ => Status::Unknown(code),
        }
    }

    /// Returns the numeric code of the status.
    pub fn code(self) -> (res: i64)
        ensures
            res == status_code(self),
    {
        match self {
            Status::Good => 0,
            Status::Obsolete => 2,
            Status::TimeInvalid => 3,
            Status::Invalid => 10,
            Status::Unknown(v) => v,
        }
    }
}

/// Cause and direction of a transmission.
#[derive(Debug, Clone, Copy, PartialEq, Eq, Structural)]
pub enum Cot {
    Inf,
    Act,
    ActCon,
    ActErr,
    Req,
    ReqCon,
    ReqErr,
    Read,
    Write,
    All,
}

/// The text form of a cause of transmission.
pub open spec fn cot_text(c: Cot) -> Seq<char> {
    match c {
        Cot::Inf => "Inf"@,
        Cot::Act => "Act"@,
        Cot::ActCon => "ActCon"@,
        Cot::ActErr => "ActErr"@,
        Cot::Req => "Req"@,
        Cot::ReqCon => "ReqCon"@,
        Cot::ReqErr => "ReqErr"@,
        Cot::Read => "Read"@,
        Cot::Write => "Write"@,
        Cot::All => "All"@,
    }
}

impl Cot {
    /// Returns the cause named `text`: the inverse of `as_str`.
    pub fn parse(text: &str) -> (res: Option<Cot>)
        ensures
            match res { Some(c) => cot_text(c) == text@, None => forall|c: Cot| cot_text(c) != text@ },
    {
        proof {
            reveal_strlit("Inf"); reveal_strlit("Act"); reveal_strlit("ActCon"); reveal_strlit("ActErr");
            reveal_strlit("Req"); reveal_strlit("ReqCon"); reveal_strlit("ReqErr"); reveal_strlit("Read");
            reveal_strlit("Write"); reveal_strlit("All");
        }
        if str_eq(text, "Inf") { Some(Cot::Inf) }
        else if str_eq(text, "Act") { Some(Cot::Act) }
        else if str_eq(text, "ActCon") { Some(Cot::ActCon) }
        else if str_eq(text, "ActErr") { Some(Cot::ActErr) }
        else if str_eq(text, "Req") { Some(Cot::Req) }
        else if str_eq(text, "ReqCon") { Some(Cot::ReqCon) }
        else if str_eq(text, "ReqErr") { Some(Cot::ReqErr) }
        else if str_eq(text, "Read") { Some(Cot::Read) }
        else if str_eq(text, "Write") { Some(Cot::Write) }
        else if str_eq(text, "All") { Some(Cot::All) }
        else { None }
    }

    /// Returns the text form of the cause of transmission.
    pub fn as_str(self) -> (res: &'static str)
        ensures
            res@ == cot_text(self),
    {
        match self {
            Cot::Inf => "Inf",
            Cot::Act => "Act",
            Cot::ActCon => "ActCon",
            Cot::ActErr => "ActErr",
            Cot::Req => "Req",
            Cot::ReqCon => "ReqCon",
            Cot::ReqErr => "ReqErr",
            Cot::Read => "Read",
            Cot::Write => "Write",
            Cot::All => "All",
        }
    }
}

/// A boolean point value.
#[derive(Debug, Clone, Copy, PartialEq, Eq, Structural)]
pub struct Bool(pub bool);

/// A single named value with its quality, cause and time.
#[derive(Debug, Clone)]
pub struct Point<T> {
    pub tx_id: usize,
    pub name: String,
    pub value: T,
    pub status: Status,
    pub cot: Cot,
    pub timestamp: NaiveDateTime,
}

impl<T> Point<T> {
    /// Creates a new point.
    pub fn new(tx_id: usize, name: &str, value: T, status: Status, cot: Cot, timestamp: NaiveDateTime) -> (res: Self)
        ensures
            res.tx_id == tx_id,
            res.name@ == name@,
            res.value == value,
            res.status == status,
            res.cot == cot,
            res.timestamp == timestamp,
    {
        Point { tx_id, name: name.to_owned(), value, status, cot, timestamp }
    }
}

/// A point of any of the supported value types. Real and Double values
/// are held as the raw IEEE-754 bits of the `f32` / `f64` value.
#[derive(Debug, Clone)]
pub enum PointType {
    Bool(Point<Bool>),
    Int(Point<i64>),
    Real(Point<u32>),
    Double(Point<u64>),
    String(Point<String>),
}

impl PointType {
    pub open spec fn spec_name(&self) -> Seq<char> {
        match self {
            PointType::Bool(p) => p.name@,
            PointType::Int(p) => p.name@,
            PointType::Real(p) => p.name@,
            PointType::Double(p) => p.name@,
            PointType::String(p) => p.name@,
        }
    }

    pub open spec fn spec_cot(&self) -> Cot {
        match self {
            PointType::Bool(p) => p.cot,
            PointType::Int(p) => p.cot,
            PointType::Real(p) => p.cot,
            PointType::Double(p) => p.cot,
            PointType::String(p) => p.cot,
        }
    }

    pub open spec fn spec_status(&self) -> Status {
        match self {
            PointType::Bool(p) => p.status,
            PointType::Int(p) => p.status,
            PointType::Real(p) => p.status,
            PointType::Double(p) => p.status,
            PointType::String(p) => p.status,
        }
    }

    pub open spec fn spec_tx_id(&self) -> usize {
        match self {
            PointType::Bool(p) => p.tx_id,
            PointType::Int(p) => p.tx_id,
            PointType::Real(p) => p.tx_id,
            PointType::Double(p) => p.tx_id,
            PointType::String(p) => p.tx_id,
        }
    }

    /// Returns a copy of the point.
    pub fn duplicate(&self) -> (res: Self)
        ensures
            res == *self,
    {
        match self {
            PointType::Bool(p) => PointType::Bool(Point { tx_id: p.tx_id, name: p.name.clone(), value: p.value, status: p.status, cot: p.cot, timestamp: p.timestamp.clone() }),
            PointType::Int(p) => PointType::Int(Point { tx_id: p.tx_id, name: p.name.clone(), value: p.value, status: p.status, cot: p.cot, timestamp: p.timestamp.clone() }),
            PointType::Real(p) => PointType::Real(Point { tx_id: p.tx_id, name: p.name.clone(), value: p.value, status: p.status, cot: p.cot, timestamp: p.timestamp.clone() }),
            PointType::Double(p) => PointType::Double(Point { tx_id: p.tx_id, name: p.name.clone(), value: p.value, status: p.status, cot: p.cot, timestamp: p.timestamp.clone() }),
            PointType::String(p) => PointType::String(Point { tx_id: p.tx_id, name: p.name.clone(), value: p.value.clone(), status: p.status, cot: p.cot, timestamp: p.timestamp.clone() }),
        }
    }

    /// Returns the point's name.
    pub fn name(&self) -> (res: &str)
        ensures
            res@ == self.spec_name(),
    {
        match self {
            PointType::Bool(p) => p.name.as_str(),
            PointType::Int(p) => p.name.as_str(),
            PointType::Real(p) => p.name.as_str(),
            PointType::Double(p) => p.name.as_str(),
            PointType::String(p) => p.name.as_str(),
        }
    }

    /// Returns the point's cause of transmission.
    pub fn cot(&self) -> (res: Cot)
        ensures
            res == self.spec_cot(),
    {
        match self {
            PointType::Bool(p) => p.cot,
            PointType::Int(p) => p.cot,
            PointType::Real(p) => p.cot,
            PointType::Double(p) => p.cot,
            PointType::String(p) => p.cot,
        }
    }

    /// Returns the point's status.
    pub fn status(&self) -> (res: Status)
        ensures
            res == self.spec_status(),
    {
        match self {
            PointType::Bool(p) => p.status,
            PointType::Int(p) => p.status,
            PointType::Real(p) => p.status,
            PointType::Double(p) => p.status,
            PointType::String(p) => p.status,
        }
    }

    /// Returns the id of the service that produced the point.
    pub fn tx_id(&self) -> (res: usize)
        ensures
            res == self.spec_tx_id(),
    {
        match self {
            PointType::Bool(p) => p.tx_id,
            PointType::Int(p) => p.tx_id,
            PointType::Real(p) => p.tx_id,
            PointType::Double(p) => p.tx_id,
            PointType::String(p) => p.tx_id,
        }
    }
}

/// `p` is a Bool point with exactly these fields.
pub open spec fn is_bool_point(p: PointType, tx_id: usize, name: Seq<char>, value: bool, status: Status, cot: Cot, timestamp: NaiveDateTime) -> bool {
    &&& p matches PointType::Bool(q)
    &&& q.tx_id == tx_id
    &&& q.name@ == name
    &&& q.value == Bool(value)
    &&& q.status == status
    &&& q.cot == cot
    &&& q.timestamp == timestamp
}

/// `p` is an Int point with exactly these fields.
pub open spec fn is_int_point(p: PointType, tx_id: usize, name: Seq<char>, value: i64, status: Status, cot: Cot, timestamp: NaiveDateTime) -> bool {
    &&& p matches PointType::Int(q)
    &&& q.tx_id == tx_id
    &&& q.name@ == name
    &&& q.value == value
    &&& q.status == status
    &&& q.cot == cot
    &&& q.timestamp == timestamp
}

/// The numeric id of the service named `name`, by which the services that
/// receive and produce points are told apart.
pub uninterp spec fn tx_id_of(name: Seq<char>) -> usize;

/// Hashes `name` with std's `DefaultHasher` (through `BuildHasher::hash_one`
/// of a `BuildHasherDefault`, whose hashers all start from the same fixed
/// keys, unlike `RandomState`), truncated to `usize`: the same name gives the
/// same id. Which number that is, std leaves to its hash algorithm, so
/// nothing more is stated of it.
#[verifier::external_body]
pub(crate) fn tx_id_from_str(name: &str) -> (res: usize)
    ensures
        res == tx_id_of(name@),
{
    std::hash::BuildHasher::hash_one(&std::hash::BuildHasherDefault::<std::hash::DefaultHasher>::default(), name) as usize
}

/// The numeric id of the service named `name`, which marks the points it
/// produces.
pub fn point_tx_id(name: &str) -> (res: usize)
    ensures
        res == tx_id_of(name@),
{
    tx_id_from_str(name)
}

} // verus!
