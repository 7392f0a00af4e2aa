use vstd::prelude::*;
use crate::maps::{IdMap, StrMap};
use crate::text::push_nat;

verus! {

/// The subscriptions of receivers on points:
/// - multicast: for each point destination ("Cot/name"), the senders of the
///   receivers subscribed on it, by receiver id
/// - broadcast: the senders of the receivers subscribed on every point
///
/// A receiver id identifies the service that consumes the points; it is
/// also used to avoid sending a point back to the service that produced it.
pub struct Subscriptions<S> {
    pub id: String,
    multicast: StrMap<IdMap<S>>,
    broadcast: IdMap<S>,
}

impl<S> Subscriptions<S> {
    /// The maps are well formed.
    pub closed spec fn wf(&self) -> bool {
        &&& self.multicast.wf()
        &&& self.broadcast.wf()
        &&& forall|d: Seq<char>| #[trigger] self.multicast.map().contains_key(d) ==> self.multicast.map()[d].wf()
    }

    /// The text identifying the subscriptions in messages.
    pub closed spec fn ident(&self) -> Seq<char> {
        self.id@
    }

    /// The multicast subscriptions: destination to (receiver id to sender).
    pub closed spec fn multicast(&self) -> Map<Seq<char>, Map<usize, S>> {
        Map::new(|d: Seq<char>| self.multicast.map().contains_key(d), |d: Seq<char>| self.multicast.map()[d].map())
    }

    /// The broadcast subscriptions: receiver id to sender.
    pub closed spec fn broadcast(&self) -> Map<usize, S> {
        self.broadcast.map()
    }

    /// The (receiver id, sender) pairs that a point with the destination
    /// `point_id` is sent to: the receivers subscribed on the destination,
    /// then the broadcast receivers.
    pub closed spec fn targets(&self, point_id: Seq<char>) -> Seq<(usize, S)> {
        if self.multicast.map().contains_key(point_id) {
            self.multicast.map()[point_id].entry_seq() + self.broadcast.entry_seq()
        } else {
            self.broadcast.entry_seq()
        }
    }

    /// The receivers subscribed on the destination `point_id` (none where
    /// no one is).
    pub open spec fn routed(&self, point_id: Seq<char>) -> Map<usize, S> {
        if self.multicast().contains_key(point_id) { self.multicast()[point_id] } else { Map::empty() }
    }

    /// The targets of a destination are exactly its multicast subscriptions
    /// followed by the broadcast ones, each pair once.
    pub proof fn lemma_targets(&self, point_id: Seq<char>)
        requires
            self.wf(),
        ensures
            self.routed(point_id).dom().finite(),
            self.broadcast().dom().finite(),
            self.targets(point_id).len() == self.routed(point_id).dom().len() + self.broadcast().dom().len(),
            forall|i: int| 0 <= i < self.routed(point_id).dom().len() ==> #[trigger] self.routed(point_id).contains_key(self.targets(point_id)[i].0)
                && self.routed(point_id)[self.targets(point_id)[i].0] == self.targets(point_id)[i].1,
            forall|i: int| self.routed(point_id).dom().len() <= i < self.targets(point_id).len()
                ==> #[trigger] self.broadcast().contains_key(self.targets(point_id)[i].0)
                && self.broadcast()[self.targets(point_id)[i].0] == self.targets(point_id)[i].1,
            forall|k: usize| #[trigger] self.routed(point_id).contains_key(k)
                ==> exists|i: int| 0 <= i < self.routed(point_id).dom().len() && self.targets(point_id)[i].0 == k,
            forall|k: usize| #[trigger] self.broadcast().contains_key(k)
                ==> exists|i: int| self.routed(point_id).dom().len() <= i < self.targets(point_id).len() && self.targets(point_id)[i].0 == k,
    {
        self.broadcast.lemma_entries();
        self.broadcast.lemma_len();
        let t = self.targets(point_id);
        let b = self.broadcast.entry_seq();
        if self.multicast.map().contains_key(point_id) {
            let inner = self.multicast.map()[point_id];
            inner.lemma_entries();
            inner.lemma_len();
            let e = inner.entry_seq();
            assert(self.multicast()[point_id] == inner.map());
            assert forall|k: usize| #[trigger] self.broadcast().contains_key(k)
                implies exists|i: int| e.len() <= i < t.len() && t[i].0 == k by {
                let j = choose|j: int| 0 <= j < b.len() && b[j].0 == k;
                assert(t[e.len() + j] == b[j]);
            }
            assert forall|k: usize| #[trigger] inner.map().contains_key(k)
                implies exists|i: int| 0 <= i < e.len() && t[i].0 == k by {
                let j = choose|j: int| 0 <= j < e.len() && e[j].0 == k;
                assert(t[j] == e[j]);
            }
        } else {
            assert(t == b);
            assert(self.routed(point_id).dom() =~= Set::<usize>::empty());
            assert forall|k: usize| #[trigger] self.broadcast().contains_key(k)
                implies exists|i: int| 0 <= i < t.len() && t[i].0 == k by {
                let j = choose|j: int| 0 <= j < b.len() && b[j].0 == k;
                assert(t[j] == b[j]);
            }
        }
    }

    /// The text identifying the subscriptions in messages.
    pub fn ident_str(&self) -> (res: &str)
        ensures
            res@ == self.ident(),
    {
        self.id.as_str()
    }

    /// Creates an empty set of subscriptions.
    pub fn new(parent: &str) -> (res: Self)
        ensures
            res.wf(),
            res.ident() == parent@ + "/Subscriptions"@,
            res.multicast() == Map::<Seq<char>, Map<usize, S>>::empty(),
            res.broadcast() == Map::<usize, S>::empty(),
    {
        let mut id = parent.to_owned();
        id.append("/Subscriptions");
        let res = Subscriptions { id, multicast: StrMap::new(), broadcast: IdMap::new() };
        assert(res.multicast() =~= Map::<Seq<char>, Map<usize, S>>::empty());
        res
    }

    /// Subscribes the receiver `receiver_id` with `sender` on the points with
    /// the destination `destination`.
    pub fn add_multicast(&mut self, receiver_id: usize, destination: &str, sender: S)
        requires
            old(self).wf(),
        ensures
            final(self).wf(),
            final(self).ident() == old(self).ident(),
            final(self).broadcast() == old(self).broadcast(),
            final(self).multicast() == old(self).multicast().insert(destination@,
                if old(self).multicast().contains_key(destination@) {
                    old(self).multicast()[destination@].insert(receiver_id, sender)
                } else {
                    Map::empty().insert(receiver_id, sender)
                }),
    {
        let mut senders = match self.multicast.remove(destination) {
            Some(m) => m,
            None => IdMap::new(),
        };
        senders.insert(receiver_id, sender);
        let ghost inner = senders;
        self.multicast.insert(destination.to_owned(), senders);
        assert(self.multicast.map()[destination@] == inner);
        assert(self.multicast() =~= old(self).multicast().insert(destination@,
            if old(self).multicast().contains_key(destination@) {
                old(self).multicast()[destination@].insert(receiver_id, sender)
            } else {
                Map::empty().insert(receiver_id, sender)
            }));
    }

    /// Subscribes the receiver `receiver_id` with `sender` on all points.
    pub fn add_broadcast(&mut self, receiver_id: usize, sender: S)
        requires
            old(self).wf(),
        ensures
            final(self).wf(),
            final(self).ident() == old(self).ident(),
            final(self).multicast() == old(self).multicast(),
            final(self).broadcast() == old(self).broadcast().insert(receiver_id, sender),
    {
        self.broadcast.insert(receiver_id, sender);
        assert(self.multicast() =~= old(self).multicast());
    }

    /// Returns the receivers, with their senders, that a point with the
    /// destination `point_id` goes to.
    pub fn iter(&self, point_id: &str) -> (res: Vec<(usize, &S)>)
        requires
            self.wf(),
        ensures
            res@.len() == self.targets(point_id@).len(),
            forall|i: int| 0 <= i < res@.len() ==> (#[trigger] res@[i]).0 == self.targets(point_id@)[i].0
                && *res@[i].1 == self.targets(point_id@)[i].1,
    {
        let mut res: Vec<(usize, &S)> = Vec::new();
        let ghost head: Seq<(usize, S)> = Seq::empty();
        match self.multicast.get(point_id) {
            Some(m) => {
                let entries = m.entries();
                let mut i: usize = 0;
                while i < entries.len()
                    invariant
                        i <= entries@.len(),
                        res@.len() == i,
                        forall|j: int| 0 <= j < i ==> (#[trigger] res@[j]).0 == entries@[j].0 && *res@[j].1 == entries@[j].1,
                    decreases entries@.len() - i,
                {
                    res.push((entries[i].0, &entries[i].1));
                    i = i + 1;
                }
                proof { head = entries@; }
            }
            None => {}
        }
        assert(self.targets(point_id@) =~= head + self.broadcast.entry_seq());
        let b = self.broadcast.entries();
        let n = res.len();
        let mut i: usize = 0;
        while i < b.len()
            invariant
                n == head.len(),
                i <= b@.len(),
                res@.len() == n + i,
                forall|j: int| 0 <= j < n ==> (#[trigger] res@[j]).0 == head[j].0 && *res@[j].1 == head[j].1,
                forall|j: int| 0 <= j < i ==> (#[trigger] res@[n + j]).0 == b@[j].0 && *res@[n + j].1 == b@[j].1,
            decreases b@.len() - i,
        {
            res.push((b[i].0, &b[i].1));
            i = i + 1;
        }
        assert forall|i: int| 0 <= i < res@.len() implies (#[trigger] res@[i]).0 == self.targets(point_id@)[i].0
            && *res@[i].1 == self.targets(point_id@)[i].1 by {
            if i >= n {
                assert(res@[n + (i - n)] == res@[i]);
            }
        }
        res
    }

    /// Removes the subscription of the receiver `receiver_id` on the
    /// destination `point_id`; an error if there is none.
    pub fn remove(&mut self, receiver_id: &usize, point_id: &str) -> (res: Result<(), String>)
        requires
            old(self).wf(),
        ensures
            final(self).wf(),
            final(self).ident() == old(self).ident(),
            final(self).broadcast() == old(self).broadcast(),
            res is Ok <==> (old(self).multicast().contains_key(point_id@)
                && old(self).multicast()[point_id@].contains_key(*receiver_id)),
            res is Ok ==> final(self).multicast() == old(self).multicast().insert(point_id@,
                old(self).multicast()[point_id@].remove(*receiver_id)),
            res is Err ==> final(self).multicast() == old(self).multicast(),
    {
        let r = *receiver_id;
        match self.multicast.find(point_id) {
            Some(i) => {
                let mut senders = self.multicast.replace_at(i, IdMap::new());
                let removed = senders.remove(r);
                let ghost inner = senders;
                self.multicast.replace_at(i, senders);
                assert(self.multicast.map()[point_id@] == inner);
                match removed {
                    Some(_) => {
                        assert(self.multicast() =~= old(self).multicast().insert(point_id@,
                            old(self).multicast()[point_id@].remove(r)));
                        Ok(())
                    }
                    None => {
                        assert(inner.map() =~= old(self).multicast()[point_id@]);
                        assert(self.multicast() =~= old(self).multicast());
                        let mut message = self.id.clone();
                        message.append(".run | Subscription '");
                        message.append(point_id);
                        message.append("', receiver '");
                        push_nat(&mut message, r as u64);
                        message.append("' - not found");
                        Err(message)
                    }
                }
            }
            None => {
                let mut message = self.id.clone();
                message.append(".run | Subscription '");
                message.append(point_id);
                message.append("' - not found");
                Err(message)
            }
        }
    }

    /// Whether the receiver `r` is subscribed on some destination.
    pub open spec fn multicast_subscribed(&self, r: usize) -> bool {
        exists|d: Seq<char>| #[trigger] self.multicast().contains_key(d) && self.multicast()[d].contains_key(r)
    }

    /// The sender of the receiver `r` in its multicast subscription on the
    /// first destination (in the order the destinations were added) that
    /// it is subscribed on; `None` if it has no multicast subscription.
    pub fn multicast_sender(&self, r: usize) -> (res: Option<&S>)
        requires
            self.wf(),
        ensures
            res is Some <==> self.multicast_subscribed(r),
            res matches Some(s) ==> exists|d: Seq<char>| #[trigger] self.multicast().contains_key(d)
                && self.multicast()[d].contains_key(r) && self.multicast()[d][r] == *s,
    {
        let n = self.multicast.len();
        proof { self.multicast.lemma_keys(); }
        let mut i: usize = 0;
        while i < n
            invariant
                self.wf(),
                n == self.multicast.size(),
                i <= n,
                forall|j: int| 0 <= j < self.multicast.size() ==> #[trigger] self.multicast.map().contains_key(self.multicast.key(j)),
                forall|k: Seq<char>| #[trigger] self.multicast.map().contains_key(k) ==> exists|j: int| 0 <= j < self.multicast.size() && self.multicast.key(j) == k,
                forall|j: int| 0 <= j < i ==> !self.multicast.map()[#[trigger] self.multicast.key(j)].map().contains_key(r),
            decreases n - i,
        {
            let m = self.multicast.value_at(i);
            match m.get(r) {
                Some(s) => {
                    assert(self.multicast().contains_key(self.multicast.key(i as int)));
                    return Some(s);
                }
                None => {}
            }
            i = i + 1;
        }
        proof {
            if self.multicast_subscribed(r) {
                let d = choose|d: Seq<char>| #[trigger] self.multicast().contains_key(d) && self.multicast()[d].contains_key(r);
                let j = choose|j: int| 0 <= j < self.multicast.size() && self.multicast.key(j) == d;
                assert(!self.multicast.map()[self.multicast.key(j)].map().contains_key(r));
            }
        }
        None
    }

    /// Whether the receiver `r` has any subscription.
    pub open spec fn subscribed(&self, r: usize) -> bool {
        ||| self.broadcast().contains_key(r)
        ||| exists|d: Seq<char>| #[trigger] self.multicast().contains_key(d) && self.multicast()[d].contains_key(r)
    }

    /// The multicast subscriptions without those of the receiver `r`; every
    /// destination stays.
    pub open spec fn multicast_without(&self, r: usize) -> Map<Seq<char>, Map<usize, S>> {
        Map::new(|d: Seq<char>| self.multicast().contains_key(d), |d: Seq<char>| self.multicast()[d].remove(r))
    }

    /// Removes all subscriptions of the receiver `receiver_id`; an error if
    /// it had none.
    pub fn remove_all(&mut self, receiver_id: &usize) -> (res: Result<(), String>)
        requires
            old(self).wf(),
        ensures
            final(self).wf(),
            final(self).ident() == old(self).ident(),
            final(self).multicast() == old(self).multicast_without(*receiver_id),
            final(self).broadcast() == old(self).broadcast().remove(*receiver_id),
            res is Ok <==> old(self).subscribed(*receiver_id),
    {
        let r = *receiver_id;
        let mut changed = false;
        let mut messages = String::new();
        let n = self.multicast.len();
        proof { old(self).multicast.lemma_keys(); }
        let mut i: usize = 0;
        while i < n
            invariant
                self.wf(),
                n == self.multicast.size(),
                n == old(self).multicast.size(),
                i <= n,
                old(self).wf(),
                self.broadcast == old(self).broadcast,
                self.id == old(self).id,
                forall|j: int| 0 <= j < n ==> #[trigger] self.multicast.key(j) == old(self).multicast.key(j),
                self.multicast.map().dom() == old(self).multicast.map().dom(),
                forall|j: int| 0 <= j < i ==> self.multicast.map()[#[trigger] self.multicast.key(j)].map()
                    == old(self).multicast.map()[self.multicast.key(j)].map().remove(r),
                forall|j: int| i <= j < n ==> self.multicast.map()[#[trigger] self.multicast.key(j)]
                    == old(self).multicast.map()[self.multicast.key(j)],
                changed <==> exists|j: int| 0 <= j < i && old(self).multicast.map()[#[trigger] old(self).multicast.key(j)].map().contains_key(r),
                forall|j: int| 0 <= j < n ==> #[trigger] old(self).multicast.map().contains_key(old(self).multicast.key(j)),
                forall|k: Seq<char>| #[trigger] old(self).multicast.map().contains_key(k) ==> exists|j: int| 0 <= j < n && old(self).multicast.key(j) == k,
            decreases n - i,
        {
            let ghost before = *self;
            proof { self.multicast.lemma_keys(); }
            let mut senders = self.multicast.replace_at(i, IdMap::new());
            let removed = senders.remove(r);
            let ghost inner = senders;
            self.multicast.replace_at(i, senders);
            match removed {
                Some(_) => { changed = true; }
                None => {
                    messages.append(self.id.as_str());
                    messages.append(".run | Multicast Subscription '");
                    messages.append(self.multicast.key_at(i));
                    messages.append("', receiver '");
                    push_nat(&mut messages, r as u64);
                    messages.append("' - not found\n");
                }
            }
            proof {
                let ki = old(self).multicast.key(i as int);
                assert(self.multicast.map() == before.multicast.map().insert(ki, inner));
                assert(self.multicast.map().dom() =~= old(self).multicast.map().dom());
                assert forall|j: int| 0 <= j < i + 1 implies self.multicast.map()[#[trigger] self.multicast.key(j)].map()
                    == old(self).multicast.map()[self.multicast.key(j)].map().remove(r) by {
                    if j < i {
                        assert(self.multicast.key(j) != ki) by {
                            old(self).multicast.lemma_distinct_keys(j, i as int);
                        }
                    }
                }
                assert forall|j: int| i + 1 <= j < n implies self.multicast.map()[#[trigger] self.multicast.key(j)]
                    == old(self).multicast.map()[self.multicast.key(j)] by {
                    assert(self.multicast.key(j) != ki) by {
                        old(self).multicast.lemma_distinct_keys(j, i as int);
                    }
                }
                assert(self.wf());
                if removed is Some {
                    assert(old(self).multicast.map()[old(self).multicast.key(i as int)].map().contains_key(r));
                }
            }
            i = i + 1;
        }
        let removed = self.broadcast.remove(r);
        match removed {
            Some(_) => { changed = true; }
            None => {
                messages.append(self.id.as_str());
                messages.append(".run | Broadcast Subscription by receiver '");
                push_nat(&mut messages, r as u64);
                messages.append("' - not found");
            }
        }
        proof {
            assert(self.multicast() =~= old(self).multicast_without(r)) by {
                assert forall|d: Seq<char>| #[trigger] self.multicast().contains_key(d) implies
                    self.multicast()[d] == old(self).multicast_without(r)[d] by {
                    let j = choose|j: int| 0 <= j < n && old(self).multicast.key(j) == d;
                    assert(self.multicast.key(j) == d);
                }
            }
            if old(self).subscribed(r) && !old(self).broadcast().contains_key(r) {
                let d = choose|d: Seq<char>| #[trigger] old(self).multicast().contains_key(d) && old(self).multicast()[d].contains_key(r);
                let j = choose|j: int| 0 <= j < n && old(self).multicast.key(j) == d;
                assert(old(self).multicast.map()[old(self).multicast.key(j)].map().contains_key(r));
            }
            if changed && !old(self).broadcast().contains_key(r) {
                let j = choose|j: int| 0 <= j < n && old(self).multicast.map()[#[trigger] old(self).multicast.key(j)].map().contains_key(r);
                assert(old(self).multicast().contains_key(old(self).multicast.key(j)));
            }
        }
        if changed {
            Ok(())
        } else {
            Err(messages)
        }
    }
}

/// Subscribing on a destination, then iterating: after `add_multicast(r,
/// d, tx)` the receivers routed on `d` are those before with `r` now
/// reached through `tx` (a later add for `r` replaces its sender), every
/// other destination keeps its receivers, and `iter(d)` yields the pair
/// `(r, tx)` among the receivers of `d`, before the broadcast ones.
pub proof fn law_add_then_iter<S>(s1: Subscriptions<S>, s2: Subscriptions<S>, r: usize, d: Seq<char>, tx: S, d2: Seq<char>)
    requires
        s1.wf(),
        s2.wf(),
        s2.broadcast() == s1.broadcast(),
        s2.multicast() == s1.multicast().insert(d,
            if s1.multicast().contains_key(d) { s1.multicast()[d].insert(r, tx) } else { Map::empty().insert(r, tx) }),
    ensures
        s2.routed(d) == s1.routed(d).insert(r, tx),
        d2 != d ==> s2.routed(d2) == s1.routed(d2),
        exists|i: int| 0 <= i < s2.routed(d).dom().len() && s2.targets(d)[i] == (r, tx),
{
    assert(s2.routed(d) =~= s1.routed(d).insert(r, tx));
    s2.lemma_targets(d);
    assert(s2.routed(d).contains_key(r));
    let i = choose|i: int| 0 <= i < s2.routed(d).dom().len() && s2.targets(d)[i].0 == r;
    assert(s2.targets(d)[i] == (r, tx));
}

/// Subscribing on all points, then iterating: after `add_broadcast(b, tx)`
/// no destination's own receivers change, and `iter(d)` yields `(b, tx)`
/// among the broadcast receivers, after those of `d`.
pub proof fn law_broadcast_then_iter<S>(s1: Subscriptions<S>, s2: Subscriptions<S>, b: usize, tx: S, d: Seq<char>)
    requires
        s1.wf(),
        s2.wf(),
        s2.multicast() == s1.multicast(),
        s2.broadcast() == s1.broadcast().insert(b, tx),
    ensures
        s2.routed(d) == s1.routed(d),
        exists|i: int| s2.routed(d).dom().len() <= i < s2.targets(d).len() && s2.targets(d)[i] == (b, tx),
{
    s2.lemma_targets(d);
    assert(s2.broadcast().contains_key(b));
    let i = choose|i: int| s2.routed(d).dom().len() <= i < s2.targets(d).len() && s2.targets(d)[i].0 == b;
    assert(s2.targets(d)[i] == (b, tx));
}

} // verus!