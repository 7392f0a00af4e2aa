use vstd::prelude::*;
use std::sync::mpsc::Sender;
use crate::channel::sender_send;
use super::queue_send::QueueSend;

verus! {

/// Sends into an mpsc channel.
#[verifier::reject_recursive_types(T)]
pub struct QueueSendMpscChannel<T> {
    pub send: Sender<T>,
}

impl<T> QueueSendMpscChannel<T> {
    pub fn new(send: Sender<T>) -> (res: Self)
        ensures
            res.send == send,
    {
        Self { send }
    }
}

impl<T: std::fmt::Debug> QueueSend<T> for QueueSendMpscChannel<T> {
    /// Sends `value` into the channel; where the receiving end was dropped,
    /// the error reads "QueueSendMpscChannel.send | send error: " followed by
    /// the send error's `Debug` text.
    fn send(&mut self, value: T) -> (res: Result<(), String>)
        ensures
            final(self).send == old(self).send,
            res matches Err(e) ==> exists|d: Seq<char>| e@ == "QueueSendMpscChannel.send | send error: "@ + d,
    {
        match sender_send(&self.send, value) {
            Ok(_) => Ok(()),
            Err(d) => {
                let mut e = "QueueSendMpscChannel.send | send error: ".to_owned();
                e.append(d.as_str());
                Err(e)
            }
        }
    }
}

} // verus!
