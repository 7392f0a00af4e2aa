#![allow(non_snake_case)]
use vstd::prelude::*;
use std::sync::mpsc::{Receiver, Sender};
use crate::channel::sender_clone;
use crate::maps::StrMap;
use crate::point::PointType;

verus! {

/// A container for the send and receive queues, by name.
pub struct Queues {
    pub sendQueues: StrMap<Sender<PointType>>,
    pub recvQueues: StrMap<Receiver<PointType>>,
}

impl Queues {
    /// Creates a new, empty container.
    pub fn new() -> (res: Self)
        ensures
            res.sendQueues.wf(),
            res.recvQueues.wf(),
            res.sendQueues.map() == Map::<Seq<char>, Sender<PointType>>::empty(),
            res.recvQueues.map() == Map::<Seq<char>, Receiver<PointType>>::empty(),
    {
        Queues { sendQueues: StrMap::new(), recvQueues: StrMap::new() }
    }

    /// Adds the send queue `name`; a name already added is kept as it is.
    pub fn addSendQueue(&mut self, name: &str, send: Sender<PointType>)
        requires
            old(self).sendQueues.wf(),
            old(self).recvQueues.wf(),
        ensures
            final(self).sendQueues.wf(),
            final(self).recvQueues.wf(),
            final(self).recvQueues.map() == old(self).recvQueues.map(),
            final(self).sendQueues.map() == if old(self).sendQueues.map().contains_key(name@) {
                old(self).sendQueues.map()
            } else {
                old(self).sendQueues.map().insert(name@, send)
            },
    {
        if !self.sendQueues.contains_key(name) {
            self.sendQueues.insert(name.to_owned(), send);
        }
    }

    /// Adds the receive queue `name`, unless a send queue of that name was
    /// added.
    pub fn addRecvQueue(&mut self, name: &str, recv: Receiver<PointType>)
        requires
            old(self).sendQueues.wf(),
            old(self).recvQueues.wf(),
        ensures
            final(self).sendQueues.wf(),
            final(self).recvQueues.wf(),
            final(self).sendQueues.map() == old(self).sendQueues.map(),
            final(self).recvQueues.map() == if old(self).sendQueues.map().contains_key(name@) {
                old(self).recvQueues.map()
            } else {
                old(self).recvQueues.map().insert(name@, recv)
            },
    {
        if !self.sendQueues.contains_key(name) {
            self.recvQueues.insert(name.to_owned(), recv);
        }
    }

    /// Returns a sender into the send queue `name`, which must have been
    /// added: a clone of the sender kept under that name.
    pub fn getSendQueue(&mut self, name: &str) -> (res: Sender<PointType>)
        requires
            old(self).sendQueues.wf(),
            old(self).sendQueues.map().contains_key(name@),
        ensures
            vstd::pervasive::strictly_cloned(old(self).sendQueues.map()[name@], res),
            final(self).sendQueues.map() == old(self).sendQueues.map(),
            final(self).recvQueues.map() == old(self).recvQueues.map(),
            final(self).sendQueues.wf(),
    {
        let send = self.sendQueues.get(name).unwrap();
        sender_clone(send)
    }

    /// Takes the receive queue `name`, which must have been added, out of
    /// the container.
    pub fn getRecvQueue(&mut self, name: &str) -> (res: Receiver<PointType>)
        requires
            old(self).recvQueues.wf(),
            old(self).recvQueues.map().contains_key(name@),
        ensures
            res == old(self).recvQueues.map()[name@],
            final(self).recvQueues.wf(),
            final(self).recvQueues.map() == old(self).recvQueues.map().remove(name@),
            final(self).sendQueues.map() == old(self).sendQueues.map(),
    {
        self.recvQueues.remove(name).unwrap()
    }
}

} // verus!
