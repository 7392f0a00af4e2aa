//! The MultiQueue: receives points into its in-queue and hands each to every
//! receiver subscribed on the point's destination and to every broadcast
//! receiver, but never back to the service that produced it.
use vstd::prelude::*;
use std::sync::mpsc::{Receiver, Sender};
use crate::channel::{new_channel, sender_clone, sender_send};
use crate::maps::{IdMap, StrMap};
use crate::point::{tx_id_from_str, tx_id_of, PointType};
use crate::text::push_nat;
use super::subscription_criteria::{destination_of, SubscriptionCriteria};
use super::subscriptions::Subscriptions;

verus! {

/// The destinations of the criteria, in their order.
pub open spec fn destinations(points: Seq<SubscriptionCriteria>) -> Seq<Seq<char>> {
    points.map_values(|c: SubscriptionCriteria| destination_of(c.cot, c.name@))
}

/// `after` is `before` with the receiver `r` subscribed (with some sender)
/// on each of the destinations `ds`, and nothing else changed.
pub open spec fn subscribed_on<S>(
    before: Map<Seq<char>, Map<usize, S>>,
    after: Map<Seq<char>, Map<usize, S>>,
    r: usize,
    ds: Seq<Seq<char>>,
) -> bool {
    &&& forall|d: Seq<char>| #[trigger] after.contains_key(d) <==> before.contains_key(d) || ds.contains(d)
    &&& forall|d: Seq<char>| #[trigger] after.contains_key(d) && !ds.contains(d) ==> after[d] == before[d]
    &&& forall|d: Seq<char>| #[trigger] ds.contains(d) ==> after[d].contains_key(r)
        && after[d].remove(r) == (if before.contains_key(d) { before[d].remove(r) } else { Map::empty() })
}

/// The subscriptions `m` after the subscriptions of the receiver `r` on the
/// destinations `ds` were removed one by one, and whether each removal
/// found its subscription; the removals stop at the first that does not.
pub open spec fn remove_each<S>(m: Map<Seq<char>, Map<usize, S>>, r: usize, ds: Seq<Seq<char>>) -> (Map<Seq<char>, Map<usize, S>>, bool)
    decreases ds.len(),
{
    if ds.len() == 0 {
        (m, true)
    } else {
        let prev = remove_each(m, r, ds.drop_last());
        if prev.1 && prev.0.contains_key(ds.last()) && prev.0[ds.last()].contains_key(r) {
            (prev.0.insert(ds.last(), prev.0[ds.last()].remove(r)), true)
        } else {
            (prev.0, false)
        }
    }
}

/// The ids of the receivers among `targets` that a point produced by
/// `producer` goes to: all but the producer, in their order.
pub open spec fn receivers<S>(targets: Seq<(usize, S)>, producer: usize) -> Seq<usize> {
    targets.map_values(|t: (usize, S)| t.0).filter(not_producer(producer))
}

/// Holds of the ids other than `producer`.
pub open spec fn not_producer(producer: usize) -> spec_fn(usize) -> bool {
    |id: usize| id != producer
}

proof fn lemma_take_push_contains<A>(s: Seq<A>, i: int, x: A)
    requires
        0 <= i < s.len(),
    ensures
        s.take(i + 1).contains(x) <==> (s.take(i).contains(x) || x == s[i]),
{
    if s.take(i + 1).contains(x) {
        let j = choose|j: int| 0 <= j < i + 1 && #[trigger] s.take(i + 1)[j] == x;
        if j < i {
            assert(s.take(i)[j] == x);
        }
    }
    if s.take(i).contains(x) {
        let j = choose|j: int| 0 <= j < i && #[trigger] s.take(i)[j] == x;
        assert(s.take(i + 1)[j] == x);
    }
    if x == s[i] {
        assert(s.take(i + 1)[i] == x);
    }
}

/// Once a removal failed, the later ones change nothing.
proof fn lemma_remove_each_stuck<S>(m: Map<Seq<char>, Map<usize, S>>, r: usize, ds: Seq<Seq<char>>, i: int, j: int)
    requires
        0 <= i <= j <= ds.len(),
        !remove_each(m, r, ds.take(i)).1,
    ensures
        remove_each(m, r, ds.take(j)) == remove_each(m, r, ds.take(i)),
    decreases j - i,
{
    if j > i {
        lemma_remove_each_stuck(m, r, ds, i, j - 1);
        assert(ds.take(j).drop_last() =~= ds.take(j - 1));
    }
}

/// Adding one subscription of `r` on `d` extends `subscribed_on` by `d`.
proof fn lemma_subscribed_step<S>(
    before: Map<Seq<char>, Map<usize, S>>,
    mid: Map<Seq<char>, Map<usize, S>>,
    ds: Seq<Seq<char>>,
    i: int,
    r: usize,
    s: S,
)
    requires
        0 <= i < ds.len(),
        subscribed_on(before, mid, r, ds.take(i)),
    ensures
        subscribed_on(before, mid.insert(ds[i],
            if mid.contains_key(ds[i]) { mid[ds[i]].insert(r, s) } else { Map::empty().insert(r, s) }), r, ds.take(i + 1)),
{
    let d0 = ds[i];
    let after = mid.insert(d0, if mid.contains_key(d0) { mid[d0].insert(r, s) } else { Map::empty().insert(r, s) });
    assert forall|d: Seq<char>| #[trigger] after.contains_key(d) <==> before.contains_key(d) || ds.take(i + 1).contains(d) by {
        lemma_take_push_contains(ds, i, d);
    }
    assert forall|d: Seq<char>| #[trigger] after.contains_key(d) && !ds.take(i + 1).contains(d) implies after[d] == before[d] by {
        lemma_take_push_contains(ds, i, d);
    }
    assert forall|d: Seq<char>| #[trigger] ds.take(i + 1).contains(d) implies after[d].contains_key(r)
        && after[d].remove(r) == (if before.contains_key(d) { before[d].remove(r) } else { Map::empty() }) by {
        lemma_take_push_contains(ds, i, d);
        if d == d0 {
            if mid.contains_key(d0) {
                assert(mid[d0].insert(r, s).remove(r) =~= mid[d0].remove(r));
                if !ds.take(i).contains(d0) {
                    assert(mid[d0] == before[d0]);
                }
            } else {
                assert(Map::<usize, S>::empty().insert(r, s).remove(r) =~= Map::<usize, S>::empty());
                assert(!ds.take(i).contains(d0));
            }
        }
    }
}

/// The MultiQueue service:
/// - subscriptions - the receivers subscribed, by destination and broadcast
/// - subscriptions_changed - set when the subscriptions changed since the
///   routing loop last took a copy of them
/// - rx_send - the senders into the in-queue, by name
/// - send_queues - the names of the queues that get every point
/// - receiver_dictionary - the names of the subscribed receivers, by id
pub struct MultiQueue {
    pub id: String,
    pub subscriptions: Subscriptions<Sender<PointType>>,
    pub subscriptions_changed: bool,
    pub rx_send: StrMap<Sender<PointType>>,
    pub rx_recv: Vec<Receiver<PointType>>,
    pub send_queues: Vec<String>,
    pub receiver_dictionary: IdMap<String>,
}

impl MultiQueue {
    /// The maps are well formed.
    pub open spec fn wf(&self) -> bool {
        &&& self.subscriptions.wf()
        &&& self.rx_send.wf()
        &&& self.receiver_dictionary.wf()
    }

    /// Creates a new instance with a new in-queue linked under `rx`; the
    /// queues named in `tx` will get every point once `run` subscribed them.
    pub fn new(parent: &str, rx: &str, tx: Vec<String>) -> (res: Self)
        ensures
            res.wf(),
            res.id@ == parent@ + "/MultiQueue"@,
            res.subscriptions.ident() == res.id@ + "/Subscriptions"@,
            res.subscriptions.multicast() == Map::<Seq<char>, Map<usize, Sender<PointType>>>::empty(),
            res.subscriptions.broadcast() == Map::<usize, Sender<PointType>>::empty(),
            !res.subscriptions_changed,
            res.rx_send.map().dom() == set![rx@],
            res.rx_recv@.len() == 1,
            res.send_queues@ == tx@,
            res.receiver_dictionary.map() == Map::<usize, String>::empty(),
    {
        let mut id = parent.to_owned();
        id.append("/MultiQueue");
        let (send, recv) = new_channel();
        let mut rx_send: StrMap<Sender<PointType>> = StrMap::new();
        rx_send.insert(rx.to_owned(), send);
        let mut rx_recv: Vec<Receiver<PointType>> = Vec::new();
        rx_recv.push(recv);
        let subscriptions = Subscriptions::new(id.as_str());
        proof {
            assert(rx_send.map().dom() =~= set![rx@]);
        }
        MultiQueue {
            id,
            subscriptions,
            subscriptions_changed: false,
            rx_send,
            rx_recv,
            send_queues: tx,
            receiver_dictionary: IdMap::new(),
        }
    }

    /// A sender into the in-queue linked under `name`, which must exist: a
    /// clone of the sender kept under that name.
    pub fn get_link(&self, name: &str) -> (res: Sender<PointType>)
        requires
            self.rx_send.wf(),
            self.rx_send.map().contains_key(name@),
        ensures
            vstd::pervasive::strictly_cloned(self.rx_send.map()[name@], res),
    {
        sender_clone(self.rx_send.get(name).unwrap())
    }

    /// Subscribes the send queue `receiver_id` on all points, with `send`.
    pub fn subscribe_send_queue(&mut self, receiver_id: &str, send: Sender<PointType>)
        requires
            old(self).wf(),
        ensures
            final(self).wf(),
            final(self).subscriptions.ident() == old(self).subscriptions.ident(),
            final(self).subscriptions.multicast() == old(self).subscriptions.multicast(),
            final(self).subscriptions.broadcast() == old(self).subscriptions.broadcast().insert(tx_id_of(receiver_id@), send),
            final(self).receiver_dictionary == old(self).receiver_dictionary,
            final(self).subscriptions_changed == old(self).subscriptions_changed,
            final(self).rx_send == old(self).rx_send,
    {
        let r = tx_id_from_str(receiver_id);
        self.subscriptions.add_broadcast(r, send);
    }

    /// Subscribes the receiver `receiver_id` on the points matching the
    /// criteria, or on all points when there are none; returns both ends of
    /// the receiver's new queue.
    pub fn subscribe(&mut self, receiver_id: &str, points: &[SubscriptionCriteria]) -> (res: (Sender<PointType>, Receiver<PointType>))
        requires
            old(self).wf(),
        ensures
            final(self).wf(),
            final(self).subscriptions.ident() == old(self).subscriptions.ident(),
            final(self).subscriptions_changed,
            final(self).rx_send == old(self).rx_send,
            final(self).receiver_dictionary.map().contains_key(tx_id_of(receiver_id@)),
            final(self).receiver_dictionary.map()[tx_id_of(receiver_id@)]@ == receiver_id@,
            final(self).receiver_dictionary.map().remove(tx_id_of(receiver_id@))
                == old(self).receiver_dictionary.map().remove(tx_id_of(receiver_id@)),
            points@.len() == 0 ==> final(self).subscriptions.multicast() == old(self).subscriptions.multicast()
                && final(self).subscriptions.broadcast().contains_key(tx_id_of(receiver_id@))
                && final(self).subscriptions.broadcast().remove(tx_id_of(receiver_id@))
                    == old(self).subscriptions.broadcast().remove(tx_id_of(receiver_id@)),
            points@.len() > 0 ==> final(self).subscriptions.broadcast() == old(self).subscriptions.broadcast()
                && subscribed_on(old(self).subscriptions.multicast(), final(self).subscriptions.multicast(),
                    tx_id_of(receiver_id@), destinations(points@)),
    {
        let (send, recv) = new_channel();
        let r = tx_id_from_str(receiver_id);
        self.receiver_dictionary.insert(r, receiver_id.to_owned());
        proof {
            assert(self.receiver_dictionary.map().remove(r) =~= old(self).receiver_dictionary.map().remove(r));
        }
        let ghost dict = self.receiver_dictionary;
        if points.len() == 0 {
            let s = sender_clone(&send);
            self.subscriptions.add_broadcast(r, s);
            proof {
                assert(self.subscriptions.broadcast().remove(r) =~= old(self).subscriptions.broadcast().remove(r));
            }
        } else {
            let ghost before = self.subscriptions.multicast();
            let ghost ds = destinations(points@);
            let mut i: usize = 0;
            proof {
                assert(ds.take(0) =~= Seq::<Seq<char>>::empty());
                assert(before =~= old(self).subscriptions.multicast());
            }
            while i < points.len()
                invariant
                    self.subscriptions.wf(),
                    i <= points@.len(),
                    ds == destinations(points@),
                    ds.len() == points@.len(),
                    before == old(self).subscriptions.multicast(),
                    self.subscriptions.ident() == old(self).subscriptions.ident(),
                    self.subscriptions.broadcast() == old(self).subscriptions.broadcast(),
                    subscribed_on(before, self.subscriptions.multicast(), r, ds.take(i as int)),
                    self.rx_send == old(self).rx_send,
                    self.receiver_dictionary == dict,
                    dict.wf(),
                    self.rx_send.wf(),
                decreases points@.len() - i,
            {
                let d = points[i].destination();
                let s = sender_clone(&send);
                let ghost mid = self.subscriptions.multicast();
                proof {
                    assert(ds[i as int] == d@);
                    lemma_subscribed_step(before, mid, ds, i as int, r, s);
                }
                self.subscriptions.add_multicast(r, d.as_str(), s);
                i = i + 1;
            }
            proof {
                assert(ds.take(points@.len() as int) =~= ds);
            }
        }
        self.subscriptions_changed = true;
        (send, recv)
    }

    /// Subscribes the receiver `receiver_id`, with the sender of its
    /// existing subscription, on the points matching the criteria as well.
    /// An error where there are no criteria (a broadcast subscription
    /// cannot be extended) or the receiver is subscribed on no point.
    pub fn extend_subscription(&mut self, receiver_id: &str, points: &[SubscriptionCriteria]) -> (res: Result<(), String>)
        requires
            old(self).wf(),
        ensures
            final(self).wf(),
            final(self).subscriptions.ident() == old(self).subscriptions.ident(),
            final(self).subscriptions.broadcast() == old(self).subscriptions.broadcast(),
            final(self).receiver_dictionary == old(self).receiver_dictionary,
            final(self).rx_send == old(self).rx_send,
            final(self).subscriptions_changed == (old(self).subscriptions_changed || points@.len() > 0),
            res is Ok <==> points@.len() > 0 && old(self).subscriptions.multicast_subscribed(tx_id_of(receiver_id@)),
            res is Ok ==> subscribed_on(old(self).subscriptions.multicast(), final(self).subscriptions.multicast(),
                tx_id_of(receiver_id@), destinations(points@)),
            res is Err ==> final(self).subscriptions.multicast() == old(self).subscriptions.multicast(),
    {
        let r = tx_id_from_str(receiver_id);
        if points.len() == 0 {
            let mut message = self.id.clone();
            message.append(".extend_subscription | Broadcast subscription can't be extended, receiver: ");
            message.append(receiver_id);
            message.append(" (");
            push_nat(&mut message, r as u64);
            message.append(")");
            return Err(message);
        }
        let found = match self.subscriptions.multicast_sender(r) {
            Some(s) => Some(sender_clone(s)),
            None => None,
        };
        self.subscriptions_changed = true;
        match found {
            Some(send) => {
                let ghost before = self.subscriptions.multicast();
                let ghost ds = destinations(points@);
                let mut i: usize = 0;
                proof {
                    assert(ds.take(0) =~= Seq::<Seq<char>>::empty());
                }
                while i < points.len()
                    invariant
                        self.subscriptions.wf(),
                        i <= points@.len(),
                        ds == destinations(points@),
                        ds.len() == points@.len(),
                        before == old(self).subscriptions.multicast(),
                        self.subscriptions.ident() == old(self).subscriptions.ident(),
                        self.subscriptions.broadcast() == old(self).subscriptions.broadcast(),
                        subscribed_on(before, self.subscriptions.multicast(), r, ds.take(i as int)),
                        self.rx_send == old(self).rx_send,
                        self.receiver_dictionary == old(self).receiver_dictionary,
                        old(self).wf(),
                        self.subscriptions_changed,
                    decreases points@.len() - i,
                {
                    let d = points[i].destination();
                    let s = sender_clone(&send);
                    let ghost mid = self.subscriptions.multicast();
                    proof {
                        assert(ds[i as int] == d@);
                        lemma_subscribed_step(before, mid, ds, i as int, r, s);
                    }
                    self.subscriptions.add_multicast(r, d.as_str(), s);
                    i = i + 1;
                }
                proof {
                    assert(ds.take(points@.len() as int) =~= ds);
                }
                Ok(())
            }
            None => {
                let mut message = String::new();
                let mut i: usize = 0;
                while i < points.len()
                    decreases points@.len() - i,
                {
                    let d = points[i].destination();
                    message.append(self.subscriptions.ident_str());
                    message.append(".extend_multicast | Subscription '");
                    message.append(d.as_str());
                    message.append("', receiver '");
                    push_nat(&mut message, r as u64);
                    message.append("' - not subscribed\n");
                    i = i + 1;
                }
                Err(message)
            }
        }
    }

    /// Removes the subscriptions of the receiver `receiver_id` on the points
    /// matching the criteria, in their order, stopping with the error of the
    /// first that it does not have; with no criteria, all its subscriptions.
    /// The receiver leaves the dictionary once a subscription was removed.
    pub fn unsubscribe(&mut self, receiver_id: &str, points: &[SubscriptionCriteria]) -> (res: Result<(), String>)
        requires
            old(self).wf(),
        ensures
            final(self).wf(),
            final(self).subscriptions.ident() == old(self).subscriptions.ident(),
            final(self).rx_send == old(self).rx_send,
            points@.len() == 0 ==> {
                let r = tx_id_of(receiver_id@);
                &&& final(self).subscriptions.multicast() == old(self).subscriptions.multicast_without(r)
                &&& final(self).subscriptions.broadcast() == old(self).subscriptions.broadcast().remove(r)
                &&& (res is Ok <==> old(self).subscriptions.subscribed(r))
                &&& final(self).receiver_dictionary.map() == if res is Ok {
                        old(self).receiver_dictionary.map().remove(r)
                    } else {
                        old(self).receiver_dictionary.map()
                    }
                &&& final(self).subscriptions_changed == (old(self).subscriptions_changed || res is Ok)
            },
            points@.len() > 0 ==> {
                let r = tx_id_of(receiver_id@);
                let removed = remove_each(old(self).subscriptions.multicast(), r, destinations(points@));
                let first = remove_each(old(self).subscriptions.multicast(), r, destinations(points@).take(1)).1;
                &&& final(self).subscriptions.multicast() == removed.0
                &&& final(self).subscriptions.broadcast() == old(self).subscriptions.broadcast()
                &&& (res is Ok <==> removed.1)
                &&& final(self).receiver_dictionary.map() == if first {
                        old(self).receiver_dictionary.map().remove(r)
                    } else {
                        old(self).receiver_dictionary.map()
                    }
                &&& final(self).subscriptions_changed == (old(self).subscriptions_changed || first)
            },
    {
        let r = tx_id_from_str(receiver_id);
        if points.len() == 0 {
            match self.subscriptions.remove_all(&r) {
                Ok(_) => {
                    self.receiver_dictionary.remove(r);
                    self.subscriptions_changed = true;
                    return Ok(());
                }
                Err(err) => {
                    return Err(err);
                }
            }
        }
        let ghost m0 = old(self).subscriptions.multicast();
        let ghost ds = destinations(points@);
        let mut i: usize = 0;
        proof {
            assert(ds.take(0) =~= Seq::<Seq<char>>::empty());
        }
        while i < points.len()
            invariant
                self.wf(),
                old(self).wf(),
                i <= points@.len(),
                points@.len() > 0,
                ds == destinations(points@),
                ds.len() == points@.len(),
                m0 == old(self).subscriptions.multicast(),
                self.subscriptions.ident() == old(self).subscriptions.ident(),
                self.subscriptions.broadcast() == old(self).subscriptions.broadcast(),
                self.rx_send == old(self).rx_send,
                r == tx_id_of(receiver_id@),
                remove_each(m0, r, ds.take(i as int)) == (self.subscriptions.multicast(), true),
                i > 0 ==> remove_each(m0, r, ds.take(1)).1,
                self.receiver_dictionary.map() == if i > 0 {
                    old(self).receiver_dictionary.map().remove(r)
                } else {
                    old(self).receiver_dictionary.map()
                },
                self.subscriptions_changed == (old(self).subscriptions_changed || i > 0),
            decreases points@.len() - i,
        {
            let d = points[i].destination();
            proof {
                assert(ds[i as int] == d@);
                assert(ds.take(i + 1).drop_last() =~= ds.take(i as int));
            }
            match self.subscriptions.remove(&r, d.as_str()) {
                Ok(_) => {
                    self.receiver_dictionary.remove(r);
                    proof {
                        if i > 0 {
                            assert(old(self).receiver_dictionary.map().remove(r).remove(r)
                                =~= old(self).receiver_dictionary.map().remove(r));
                        }
                    }
                    self.subscriptions_changed = true;
                }
                Err(err) => {
                    proof {
                        lemma_remove_each_stuck(m0, r, ds, i + 1, ds.len() as int);
                        assert(ds.take(ds.len() as int) =~= ds);
                        if i == 0 {
                            assert(ds.take(1) =~= ds.take(i + 1));
                        }
                    }
                    return Err(err);
                }
            }
            i = i + 1;
        }
        proof {
            assert(ds.take(points@.len() as int) =~= ds);
        }
        Ok(())
    }

    /// Hands `point` to each receiver that the subscriptions route its
    /// destination ("{cot}/{name}") to, except the service that produced it;
    /// returns the ids of the receivers it was handed to, in their order.
    pub fn dispatch(subscriptions: &Subscriptions<Sender<PointType>>, point: &PointType) -> (res: Vec<usize>)
        requires
            subscriptions.wf(),
        ensures
            res@ == receivers(subscriptions.targets(destination_of(point.spec_cot(), point.spec_name())), point.spec_tx_id()),
    {
        let dest = SubscriptionCriteria::dest(&point.cot(), point.name());
        let targets = subscriptions.iter(dest.as_str());
        let producer = point.tx_id();
        let ghost all = subscriptions.targets(dest@);
        let ghost ids = all.map_values(|t: (usize, Sender<PointType>)| t.0);
        let ghost keep = not_producer(producer);
        let mut res: Vec<usize> = Vec::new();
        let mut i: usize = 0;
        proof {
            assert(ids.take(0) =~= Seq::<usize>::empty());
            reveal(Seq::filter);
        }
        while i < targets.len()
            invariant
                i <= targets@.len(),
                targets@.len() == all.len(),
                ids == all.map_values(|t: (usize, Sender<PointType>)| t.0),
                forall|j: int| 0 <= j < targets@.len() ==> (#[trigger] targets@[j]).0 == all[j].0,
                keep == not_producer(producer),
                res@ == ids.take(i as int).filter(keep),
            decreases targets@.len() - i,
        {
            let rid = targets[i].0;
            proof {
                assert(ids.take(i + 1) =~= ids.take(i as int).push(rid));
                ids.take(i as int).lemma_filter_push(rid, keep);
                assert(keep(rid) == (rid != producer));
                assert(ids.take(i + 1).filter(keep) == if keep(rid) {
                    ids.take(i as int).filter(keep).push(rid)
                } else {
                    ids.take(i as int).filter(keep)
                });
            }
            if rid != producer {
                let _ = sender_send(targets[i].1, point.duplicate());
                res.push(rid);
            }
            i = i + 1;
        }
        proof {
            assert(ids.take(targets@.len() as int) =~= ids);
        }
        res
    }
}

/// A point is handed to exactly the receivers subscribed on its
/// destination or on all points, except the service that produced it: that
/// one never gets its own point back.
pub proof fn law_dispatch<S>(subs: Subscriptions<S>, dest: Seq<char>, producer: usize, r: usize)
    requires
        subs.wf(),
    ensures
        receivers(subs.targets(dest), producer).contains(r) <==> (r != producer
            && ((subs.multicast().contains_key(dest) && subs.multicast()[dest].contains_key(r))
                || subs.broadcast().contains_key(r))),
{
    subs.lemma_targets(dest);
    let t = subs.targets(dest);
    let ids = t.map_values(|x: (usize, S)| x.0);
    let p = not_producer(producer);
    let rs = ids.filter(p);
    let m = subs.routed(dest);
    let n = m.dom().len();
    if rs.contains(r) {
        ids.lemma_filter_contains_rev(p, r);
        let j = choose|j: int| 0 <= j < rs.len() && rs[j] == r;
        ids.lemma_filter_pred(p, j);
        let k = choose|k: int| 0 <= k < ids.len() && ids[k] == r;
        assert(t[k].0 == r);
        if k < n {
            assert(m.contains_key(t[k].0));
        } else {
            assert(subs.broadcast().contains_key(t[k].0));
        }
    }
    if r != producer && ((subs.multicast().contains_key(dest) && subs.multicast()[dest].contains_key(r))
        || subs.broadcast().contains_key(r)) {
        let k = if subs.multicast().contains_key(dest) && subs.multicast()[dest].contains_key(r) {
            assert(m.contains_key(r));
            choose|i: int| 0 <= i < n && t[i].0 == r
        } else {
            choose|i: int| n <= i < t.len() && t[i].0 == r
        };
        assert(ids[k] == r);
        ids.lemma_filter_contains(p, k);
    }
}

/// A subscription of a receiver on a destination it was not subscribed on,
/// removed again, leaves the subscriptions as they were.
pub proof fn law_subscribe_unsubscribe<S>(before: Map<Seq<char>, Map<usize, S>>, r: usize, d: Seq<char>, s: S)
    requires
        !(before.contains_key(d) && before[d].contains_key(r)),
    ensures
        ({
            let added = before.insert(d, if before.contains_key(d) { before[d].insert(r, s) } else { Map::empty().insert(r, s) });
            let removed = remove_each(added, r, seq![d]);
            &&& removed.1
            &&& removed.0.remove(d) == before.remove(d)
            &&& removed.0[d] == if before.contains_key(d) { before[d] } else { Map::empty() }
        }),
{
    reveal_with_fuel(remove_each, 2);
    let added = before.insert(d, if before.contains_key(d) { before[d].insert(r, s) } else { Map::empty().insert(r, s) });
    assert(seq![d].drop_last() =~= Seq::<Seq<char>>::empty());
    assert(seq![d].last() == d);
    let removed = remove_each(added, r, seq![d]);
    assert(removed.0 == added.insert(d, added[d].remove(r)));
    if before.contains_key(d) {
        assert(before[d].insert(r, s).remove(r) =~= before[d]);
    } else {
        assert(Map::<usize, S>::empty().insert(r, s).remove(r) =~= Map::<usize, S>::empty());
    }
    assert(removed.0.remove(d) =~= before.remove(d));
}

/// After all subscriptions of a receiver were removed, it has none.
pub proof fn law_unsubscribed<S>(subs: Subscriptions<S>, r: usize)
    ensures
        !subs.broadcast().remove(r).contains_key(r),
        forall|d: Seq<char>| #[trigger] subs.multicast_without(r).contains_key(d) ==> !subs.multicast_without(r)[d].contains_key(r),
{
}

} // verus!
