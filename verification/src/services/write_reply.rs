//! The points that confirm a write to a device, or report its failure.
use vstd::prelude::*;
use chrono::NaiveDateTime;
use crate::error_limit::ErrorLimit;
use crate::point::{Cot, Point, PointType, Status};
use crate::text::{nth_segment, segment};
use crate::services::diagnosis::diag_point::DiagKeywd;

verus! {

/// `reply` confirms `point`: the same kind, name and value, status Good,
/// cause ActCon, produced by `tx_id` at `timestamp`.
pub open spec fn is_confirmation(reply: PointType, point: PointType, tx_id: usize, timestamp: NaiveDateTime) -> bool {
    match (reply, point) {
        (PointType::Bool(r), PointType::Bool(p)) => r.name@ == p.name@ && r.value == p.value
            && r.tx_id == tx_id && r.status == Status::Good && r.cot == Cot::ActCon && r.timestamp == timestamp,
        (PointType::Int(r), PointType::Int(p)) => r.name@ == p.name@ && r.value == p.value
            && r.tx_id == tx_id && r.status == Status::Good && r.cot == Cot::ActCon && r.timestamp == timestamp,
        (PointType::Real(r), PointType::Real(p)) => r.name@ == p.name@ && r.value == p.value
            && r.tx_id == tx_id && r.status == Status::Good && r.cot == Cot::ActCon && r.timestamp == timestamp,
        (PointType::Double(r), PointType::Double(p)) => r.name@ == p.name@ && r.value == p.value
            && r.tx_id == tx_id && r.status == Status::Good && r.cot == Cot::ActCon && r.timestamp == timestamp,
        (PointType::String(r), PointType::String(p)) => r.name@ == p.name@ && r.value == p.value
            && r.tx_id == tx_id && r.status == Status::Good && r.cot == Cot::ActCon && r.timestamp == timestamp,
        _ => false,
    }
}

/// Creates the confirmation of a written point: the same value, status
/// Good and cause ActCon.
pub fn reply_point(tx_id: usize, point: PointType, timestamp: NaiveDateTime) -> (res: PointType)
    ensures
        is_confirmation(res, point, tx_id, timestamp),
{
    match point {
        PointType::Bool(p) => PointType::Bool(Point::new(tx_id, p.name.as_str(), p.value, Status::Good, Cot::ActCon, timestamp)),
        PointType::Int(p) => PointType::Int(Point::new(tx_id, p.name.as_str(), p.value, Status::Good, Cot::ActCon, timestamp)),
        PointType::Real(p) => PointType::Real(Point::new(tx_id, p.name.as_str(), p.value, Status::Good, Cot::ActCon, timestamp)),
        PointType::Double(p) => PointType::Double(Point::new(tx_id, p.name.as_str(), p.value, Status::Good, Cot::ActCon, timestamp)),
        PointType::String(p) => PointType::String(Point::new(tx_id, p.name.as_str(), p.value, Status::Good, Cot::ActCon, timestamp)),
    }
}

/// Creates the point that reports a failed write of the point `name`:
/// the text "Write error: {error}", status Good and cause ActErr.
pub fn write_error_point(tx_id: usize, name: &str, error: &str, timestamp: NaiveDateTime) -> (res: PointType)
    ensures
        res matches PointType::String(p) && p.tx_id == tx_id && p.name@ == name@
            && p.value@ == "Write error: "@ + error@ && p.status == Status::Good
            && p.cot == Cot::ActErr && p.timestamp == timestamp,
{
    let mut text = "Write error: ".to_owned();
    text.append(error);
    PointType::String(Point::new(tx_id, name, text, Status::Good, Cot::ActErr, timestamp))
}

/// The name of the data block that a point written to a device belongs to:
/// the fourth part of its name split at '/' ("/App/Device/Db/Point" gives
/// "Db"). The name must have that part (a client panics on a name that has
/// not; `nth_segment` tells it beforehand).
pub fn db_name_of(point_name: &str) -> (res: String)
    requires
        segment(point_name@, '/', 3) is Some,
    ensures
        segment(point_name@, '/', 3) == Some(res@),
{
    match nth_segment(point_name, '/', 3) {
        Some(t) => t,
        None => {
            assert(false);
            String::new()
        }
    }
}

/// What a device client does after writing a point.
pub enum WriteStep {
    /// The point was written: send this confirmation.
    Confirmed(PointType),
    /// The write failed; the client goes on.
    Failed,
    /// The write failed once more than the limit allows: send this error
    /// point, then connect anew.
    Reconnect(PointType),
}

/// Decides on the outcome `written` of writing `point` to a device: a
/// success is confirmed (see `reply_point`) and clears the error count; a
/// failure is counted, and one beyond the limit asks for a new connection
/// and reports the error as a "Write error: {error}" point of the point's
/// name.
pub fn write_step(errors: &mut ErrorLimit, tx_id: usize, point: PointType, written: Result<(), String>, timestamp: NaiveDateTime) -> (res: WriteStep)
    requires
        old(errors).wf(),
        segment(point.spec_name(), '/', 3) is Some,
    ensures
        final(errors).wf(),
        final(errors).limit == old(errors).limit,
        written is Ok ==> final(errors).errors == 0
            && (res matches WriteStep::Confirmed(r) && is_confirmation(r, point, tx_id, timestamp)),
        written is Err && old(errors).errors < old(errors).limit ==> final(errors).errors == old(errors).errors + 1
            && res is Failed,
        written is Err && old(errors).errors >= old(errors).limit ==> final(errors).errors == old(errors).errors
            && (res matches WriteStep::Reconnect(e)
            && e matches PointType::String(p) && p.tx_id == tx_id && p.name@ == point.spec_name()
            && p.value@ == "Write error: "@ + written->Err_0@ && p.status == Status::Good
            && p.cot == Cot::ActErr && p.timestamp == timestamp),
{
    match written {
        Ok(()) => {
            errors.reset();
            WriteStep::Confirmed(reply_point(tx_id, point, timestamp))
        }
        Err(err) => {
            match errors.add() {
                Ok(()) => WriteStep::Failed,
                Err(()) => WriteStep::Reconnect(write_error_point(tx_id, point.name(), err.as_str(), timestamp)),
            }
        }
    }
}

/// One thing a device client's read or write loop does.
#[derive(Debug)]
pub enum DeviceAction {
    /// Send this point to the client's destination.
    Send(PointType),
    /// Tell the paired read loop to exit.
    SignalExit,
    /// Store this status as the client's.
    StoreStatus(Status),
    /// Report this status on the diagnosis point of this keyword.
    YieldDiagnosis(DiagKeywd, Status),
    /// Report this status on every point of the client's data blocks.
    YieldStatus(Status),
    /// Close the connection to the device.
    Close,
    /// Go back to connecting to the device.
    Reconnect,
    /// End the write thread.
    End,
}

/// What the SLMP write loop does, in order, after a write step: a
/// confirmation is sent; a counted failure does nothing more; beyond the
/// error limit it signals the read loop to exit, stores the status Invalid,
/// sends the one "Write error" point and ends the write thread.
pub fn slmp_write_actions(step: WriteStep) -> (res: Vec<DeviceAction>)
    ensures
        match step {
            WriteStep::Confirmed(r) => res@ == seq![DeviceAction::Send(r)],
            WriteStep::Failed => res@ == Seq::<DeviceAction>::empty(),
            WriteStep::Reconnect(e) => res@ == seq![DeviceAction::SignalExit, DeviceAction::StoreStatus(Status::Invalid),
                DeviceAction::Send(e), DeviceAction::End],
        },
{
    let mut res: Vec<DeviceAction> = Vec::new();
    match step {
        WriteStep::Confirmed(r) => {
            res.push(DeviceAction::Send(r));
        }
        WriteStep::Failed => {}
        WriteStep::Reconnect(e) => {
            res.push(DeviceAction::SignalExit);
            res.push(DeviceAction::StoreStatus(Status::Invalid));
            res.push(DeviceAction::Send(e));
            res.push(DeviceAction::End);
        }
    }
    res
}

/// What the Profinet write loop does, in order, after a write step: a
/// confirmation is sent; a counted failure does nothing more; beyond the
/// error limit it reports the Connection diagnosis Invalid, sends the one
/// "Write error" point, closes the connection and goes back to connecting.
pub fn profinet_write_actions(step: WriteStep) -> (res: Vec<DeviceAction>)
    ensures
        match step {
            WriteStep::Confirmed(r) => res@ == seq![DeviceAction::Send(r)],
            WriteStep::Failed => res@ == Seq::<DeviceAction>::empty(),
            WriteStep::Reconnect(e) => res@ == seq![DeviceAction::YieldDiagnosis(DiagKeywd::Connection, Status::Invalid),
                DeviceAction::Send(e), DeviceAction::Close, DeviceAction::Reconnect],
        },
{
    let mut res: Vec<DeviceAction> = Vec::new();
    match step {
        WriteStep::Confirmed(r) => {
            res.push(DeviceAction::Send(r));
        }
        WriteStep::Failed => {}
        WriteStep::Reconnect(e) => {
            res.push(DeviceAction::YieldDiagnosis(DiagKeywd::Connection, Status::Invalid));
            res.push(DeviceAction::Send(e));
            res.push(DeviceAction::Close);
            res.push(DeviceAction::Reconnect);
        }
    }
    res
}

/// Decides on the outcome `read` of reading a data block of the Profinet
/// client: a success clears the error count and a failure is counted, with
/// nothing more to do; a failure beyond the limit reports the Connection
/// diagnosis Invalid, closes the connection, reports the status Invalid on
/// every point and goes back to connecting.
pub fn read_step(errors: &mut ErrorLimit, read: &Result<(), String>) -> (res: Vec<DeviceAction>)
    requires
        old(errors).wf(),
    ensures
        final(errors).wf(),
        final(errors).limit == old(errors).limit,
        read is Ok ==> final(errors).errors == 0 && res@ == Seq::<DeviceAction>::empty(),
        read is Err && old(errors).errors < old(errors).limit ==> final(errors).errors == old(errors).errors + 1
            && res@ == Seq::<DeviceAction>::empty(),
        read is Err && old(errors).errors >= old(errors).limit ==> final(errors).errors == old(errors).errors
            && res@ == seq![DeviceAction::YieldDiagnosis(DiagKeywd::Connection, Status::Invalid), DeviceAction::Close,
                DeviceAction::YieldStatus(Status::Invalid), DeviceAction::Reconnect],
{
    let mut res: Vec<DeviceAction> = Vec::new();
    match read {
        Ok(()) => {
            errors.reset();
        }
        Err(_) => {
            match errors.add() {
                Ok(()) => {}
                Err(()) => {
                    res.push(DeviceAction::YieldDiagnosis(DiagKeywd::Connection, Status::Invalid));
                    res.push(DeviceAction::Close);
                    res.push(DeviceAction::YieldStatus(Status::Invalid));
                    res.push(DeviceAction::Reconnect);
                }
            }
        }
    }
    res
}

/// Decides on the outcome `read` of reading a data block of the SLMP
/// client: a success clears the error count and a failure is counted, with
/// nothing more to do; a failure beyond the limit stores the status
/// Invalid, tells the paired write loop to exit and ends the read thread.
pub fn slmp_read_step(errors: &mut ErrorLimit, read: &Result<(), String>) -> (res: Vec<DeviceAction>)
    requires
        old(errors).wf(),
    ensures
        final(errors).wf(),
        final(errors).limit == old(errors).limit,
        read is Ok ==> final(errors).errors == 0 && res@ == Seq::<DeviceAction>::empty(),
        read is Err && old(errors).errors < old(errors).limit ==> final(errors).errors == old(errors).errors + 1
            && res@ == Seq::<DeviceAction>::empty(),
        read is Err && old(errors).errors >= old(errors).limit ==> final(errors).errors == old(errors).errors
            && res@ == seq![DeviceAction::StoreStatus(Status::Invalid), DeviceAction::SignalExit, DeviceAction::End],
{
    let mut res: Vec<DeviceAction> = Vec::new();
    match read {
        Ok(()) => {
            errors.reset();
        }
        Err(_) => {
            match errors.add() {
                Ok(()) => {}
                Err(()) => {
                    res.push(DeviceAction::StoreStatus(Status::Invalid));
                    res.push(DeviceAction::SignalExit);
                    res.push(DeviceAction::End);
                }
            }
        }
    }
    res
}

/// When the SLMP read thread ends with the stored `status`: a status other
/// than Good is reported Invalid on every point of its blocks.
pub fn slmp_read_exit(status: Status) -> (res: Vec<DeviceAction>)
    ensures
        res@ == if status == Status::Good { Seq::<DeviceAction>::empty() } else { seq![DeviceAction::YieldStatus(Status::Invalid)] },
{
    let mut res: Vec<DeviceAction> = Vec::new();
    if status != Status::Good {
        res.push(DeviceAction::YieldStatus(Status::Invalid));
    }
    res
}

/// What the SLMP client reports when it starts: its Status diagnosis Good
/// and its Connection diagnosis Invalid, not connected yet.
pub fn slmp_client_start() -> (res: Vec<DeviceAction>)
    ensures
        res@ == seq![DeviceAction::YieldDiagnosis(DiagKeywd::Status, Status::Good),
            DeviceAction::YieldDiagnosis(DiagKeywd::Connection, Status::Invalid)],
{
    let mut res: Vec<DeviceAction> = Vec::new();
    res.push(DeviceAction::YieldDiagnosis(DiagKeywd::Status, Status::Good));
    res.push(DeviceAction::YieldDiagnosis(DiagKeywd::Connection, Status::Invalid));
    res
}

/// What the SLMP client does after trying to connect: connected, it
/// reports its Connection diagnosis Good (then starts its read and write
/// threads); otherwise it reports it Invalid.
pub fn slmp_client_connected(connected: bool) -> (res: Vec<DeviceAction>)
    ensures
        res@ == seq![DeviceAction::YieldDiagnosis(DiagKeywd::Connection, if connected { Status::Good } else { Status::Invalid })],
{
    let mut res: Vec<DeviceAction> = Vec::new();
    res.push(DeviceAction::YieldDiagnosis(DiagKeywd::Connection, if connected { Status::Good } else { Status::Invalid }));
    res
}

/// What the SLMP client does once its read and write threads were asked to
/// start (`read_started`, `write_started`): with both running it waits for
/// them; where one failed to start it reports its Status diagnosis Invalid
/// and tells the other to exit (then waits for it).
pub fn slmp_client_started(read_started: bool, write_started: bool) -> (res: Vec<DeviceAction>)
    ensures
        res@ == if read_started && write_started { Seq::<DeviceAction>::empty() } else {
            seq![DeviceAction::YieldDiagnosis(DiagKeywd::Status, Status::Invalid), DeviceAction::SignalExit]
        },
{
    let mut res: Vec<DeviceAction> = Vec::new();
    if !(read_started && write_started) {
        res.push(DeviceAction::YieldDiagnosis(DiagKeywd::Status, Status::Invalid));
        res.push(DeviceAction::SignalExit);
    }
    res
}

/// After a connection of the SLMP client ended: it ends when the
/// application exits, and connects anew otherwise.
pub fn slmp_client_after(exit: bool) -> (res: DeviceAction)
    ensures
        res == if exit { DeviceAction::End } else { DeviceAction::Reconnect },
{
    if exit { DeviceAction::End } else { DeviceAction::Reconnect }
}

} // verus!
