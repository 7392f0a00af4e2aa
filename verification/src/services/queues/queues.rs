#![allow(non_snake_case)]
use vstd::prelude::*;
use std::sync::mpsc::Sender;
use crate::maps::StrMap;

verus! {

/// A container for the send queues (of text messages), by name.
pub struct Queues {
    pub sendQueues: StrMap<Sender<String>>,
}

impl Queues {
    /// Creates a new, empty container.
    pub fn new() -> (res: Self)
        ensures
            res.sendQueues.wf(),
            res.sendQueues.map() == Map::<Seq<char>, Sender<String>>::empty(),
    {
        Queues { sendQueues: StrMap::new() }
    }

    /// Adds the send queue `name`; a name already added is kept as it is.
    pub fn addSendQueue(&mut self, name: &str, send: Sender<String>)
        requires
            old(self).sendQueues.wf(),
        ensures
            final(self).sendQueues.wf(),
            final(self).sendQueues.map() == if old(self).sendQueues.map().contains_key(name@) {
                old(self).sendQueues.map()
            } else {
                old(self).sendQueues.map().insert(name@, send)
            },
    {
        if !self.sendQueues.contains_key(name) {
            self.sendQueues.insert(name.to_owned(), send);
        }
    }

    /// Takes the send queue `name`, which must have been added, out of the
    /// container.
    pub fn getSendQueue(&mut self, name: &str) -> (res: Sender<String>)
        requires
            old(self).sendQueues.wf(),
            old(self).sendQueues.map().contains_key(name@),
        ensures
            res == old(self).sendQueues.map()[name@],
            final(self).sendQueues.wf(),
            final(self).sendQueues.map() == old(self).sendQueues.map().remove(name@),
    {
        self.sendQueues.remove(name).unwrap()
    }
}

} // verus!
