//! The TCP server's table of kept connections, keyed by connection id.
//! Each entry holds whatever the server keeps of a connection (its thread
//! and the sender that steers it); whether that thread has finished is
//! asked of the caller's test, so every decision here holds whatever the
//! test answers.
use vstd::prelude::*;
use crate::maps::StrMap;

verus! {

/// The kept connections of a TCP server.
pub struct TcpServerConnections<C> {
    pub id: String,
    pub connections: StrMap<C>,
}

/// The message of a repair whose connection id is unknown.
pub open spec fn not_found_text(id: Seq<char>, connection_id: Seq<char>) -> Seq<char> {
    id + ".repair | Keeped connection '"@ + connection_id + "' - not found"@
}

/// The message of a repair whose connection has finished.
pub open spec fn exceeded_text(id: Seq<char>, connection_id: Seq<char>) -> Seq<char> {
    id + ".repair | Keeped connection '"@ + connection_id + "' - exceeded"@
}

impl<C> TcpServerConnections<C> {
    /// The table is well formed.
    pub open spec fn wf(&self) -> bool {
        self.connections.wf()
    }

    /// The kept connections by id.
    pub open spec fn map(&self) -> Map<Seq<char>, C> {
        self.connections.map()
    }

    /// Creates an empty table named after its parent.
    pub fn new(parent: &str) -> (res: Self)
        ensures
            res.wf(),
            res.id@ == parent@ + "/TcpServerConnections"@,
            res.map() == Map::<Seq<char>, C>::empty(),
    {
        let mut id = parent.to_owned();
        id.append("/TcpServerConnections");
        TcpServerConnections { id, connections: StrMap::new() }
    }

    /// Keeps a connection under its id; one kept under the same id before is
    /// replaced.
    pub fn insert(&mut self, connection_id: &str, connection: C)
        requires
            old(self).wf(),
        ensures
            final(self).wf(),
            final(self).id == old(self).id,
            final(self).map() == old(self).map().insert(connection_id@, connection),
    {
        self.connections.insert(connection_id.to_owned(), connection);
    }

    /// Finds the connection to be resumed under `connection_id`: it is
    /// handed back while its thread runs; a finished one, or an unknown id,
    /// gives the error message.
    pub fn repair<F: Fn(&C) -> bool>(&self, connection_id: &str, is_finished: F) -> (res: Result<&C, String>)
        requires
            self.wf(),
            forall|c: &C| #[trigger] is_finished.requires((c,)),
        ensures
            !self.map().contains_key(connection_id@) ==> (res matches Err(e) && e@ == not_found_text(self.id@, connection_id@)),
            self.map().contains_key(connection_id@) ==> match res {
                Ok(c) => *c == self.map()[connection_id@] && is_finished.ensures((c,), false),
                Err(e) => e@ == exceeded_text(self.id@, connection_id@)
                    && is_finished.ensures((&self.map()[connection_id@],), true),
            },
    {
        match self.connections.get(connection_id) {
            Some(connection) => {
                if is_finished(connection) {
                    let mut e = self.id.clone();
                    e.append(".repair | Keeped connection '");
                    e.append(connection_id);
                    e.append("' - exceeded");
                    Err(e)
                } else {
                    Ok(connection)
                }
            }
            None => {
                let mut e = self.id.clone();
                e.append(".repair | Keeped connection '");
                e.append(connection_id);
                e.append("' - not found");
                Err(e)
            }
        }
    }

    /// Removes the connections whose thread has finished and hands them
    /// back, to be joined; the others stay, each tested as running.
    pub fn clean<F: Fn(&C) -> bool>(&mut self, is_finished: F) -> (removed: Vec<(String, C)>)
        requires
            old(self).wf(),
            forall|c: &C| #[trigger] is_finished.requires((c,)),
        ensures
            final(self).wf(),
            final(self).id == old(self).id,
            forall|k: Seq<char>| #[trigger] final(self).map().contains_key(k) ==> old(self).map().contains_key(k)
                && final(self).map()[k] == old(self).map()[k] && is_finished.ensures((&old(self).map()[k],), false),
            forall|t: int| 0 <= t < removed@.len() ==> old(self).map().contains_key(#[trigger] removed@[t].0@)
                && removed@[t].1 == old(self).map()[removed@[t].0@] && is_finished.ensures((&removed@[t].1,), true)
                && !final(self).map().contains_key(removed@[t].0@),
            forall|k: Seq<char>| #[trigger] old(self).map().contains_key(k) ==> final(self).map().contains_key(k)
                || exists|t: int| 0 <= t < removed@.len() && #[trigger] removed@[t].0@ == k,
    {
        self.connections.take_where(is_finished)
    }

    /// Takes out the first kept connection, to be told to exit and joined;
    /// `None` when none is kept.
    pub fn take_first(&mut self) -> (res: Option<(String, C)>)
        requires
            old(self).wf(),
        ensures
            final(self).wf(),
            final(self).id == old(self).id,
            match res {
                Some((k, c)) => old(self).map().contains_key(k@) && c == old(self).map()[k@]
                    && final(self).map() == old(self).map().remove(k@),
                None => old(self).map() == Map::<Seq<char>, C>::empty() && final(self).map() == old(self).map(),
            },
    {
        proof { self.connections.lemma_keys(); }
        if self.connections.len() == 0 {
            assert(self.map() =~= Map::<Seq<char>, C>::empty());
            None
        } else {
            let key = self.connections.key_at(0).to_owned();
            match self.connections.remove(key.as_str()) {
                Some(c) => Some((key, c)),
                None => None,
            }
        }
    }
}

} // verus!
