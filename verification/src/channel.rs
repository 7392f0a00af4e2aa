//! The ends of std's multi-producer, single-consumer channels, which the
//! services hand points through.
use vstd::prelude::*;
use std::sync::mpsc::{Receiver, Sender};

verus! {

/// The sending end of a channel; opaque, it is only carried along.
#[verifier::external_type_specification]
#[verifier::external_body]
#[verifier::reject_recursive_types(T)]
pub struct ExSender<T>(Sender<T>);

/// The receiving end of a channel; opaque, it is only carried along.
#[verifier::external_type_specification]
#[verifier::external_body]
#[verifier::reject_recursive_types(T)]
pub struct ExReceiver<T>(Receiver<T>);

/// Calls `Sender::clone`: another sender into the same channel. The result
/// is stated as what `<Sender as Clone>::clone` gives from `s`
/// (`strictly_cloned`); the channel a sender feeds is not visible to the
/// proofs otherwise.
#[verifier::external_body]
pub(crate) fn sender_clone<T>(s: &Sender<T>) -> (res: Sender<T>)
    ensures
        vstd::pervasive::strictly_cloned(*s, res),
{
    s.clone()
}

/// Calls `Sender::send`; it fails when the receiving end was dropped, which
/// depends on the other side, so nothing is stated of the result. The error
/// is handed back as its `Debug` text.
#[verifier::external_body]
pub(crate) fn sender_send<T: std::fmt::Debug>(s: &Sender<T>, value: T) -> (res: Result<(), String>) {
    match s.send(value) {
        Ok(_) => Ok(()),
        Err(err) => Err(format!("{:?}", err)),
    }
}

/// Calls `std::sync::mpsc::channel`: a new channel, its sending and its
/// receiving end. Nothing is stated of them: which channel an end belongs
/// to is not visible to the proofs.
#[verifier::external_body]
pub(crate) fn new_channel<T>() -> (res: (Sender<T>, Receiver<T>)) {
    std::sync::mpsc::channel()
}

/// Calls `Receiver::try_recv`: the next value waiting in the channel, or
/// `None` where none is waiting now or the sending ends were dropped. What
/// is waiting depends on the other threads, so nothing is stated of it.
#[verifier::external_body]
pub(crate) fn try_recv<T>(r: &Receiver<T>) -> (res: Option<T>) {
    r.try_recv().ok()
}

} // verus!
