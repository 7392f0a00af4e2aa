use vstd::prelude::*;

verus! {

/// What identifies a connection being set up.
pub struct ConnectionInfo<'a> {
    pub self_id: &'a str,
    pub self_name: &'a str,
    pub connection_id: &'a str,
}

impl<'a> ConnectionInfo<'a> {
    pub fn new(self_id: &'a str, self_name: &'a str, connection_id: &'a str) -> (res: Self)
        ensures
            res.self_id == self_id,
            res.self_name == self_name,
            res.connection_id == connection_id,
    {
        Self { self_id, self_name, connection_id }
    }
}

} // verus!
