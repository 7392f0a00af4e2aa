//! The write side of the SLMP client: the commands it subscribes on and
//! the outcome of writing them (see `write_step`).
use vstd::prelude::*;

verus! {

/// Writes the commands (cause Act) on the client's points to the device.
pub struct SlmpWrite {
    pub tx_id: usize,
    pub id: String,
    pub cycle_ms: Option<u64>,
}

impl SlmpWrite {
    /// Creates a new instance named "{parent}/SlmpWrite".
    pub fn new(parent: &str, tx_id: usize, cycle_ms: Option<u64>) -> (res: Self)
        ensures
            res.id@ == parent@ + "/SlmpWrite"@,
            res.tx_id == tx_id,
            res.cycle_ms == cycle_ms,
    {
        let mut id = parent.to_owned();
        id.append("/SlmpWrite");
        SlmpWrite { tx_id, id, cycle_ms }
    }
}

} // verus!
