use vstd::prelude::*;

verus! {

/// Holds a reference to the specific async queue / channel implementation,
/// sharing a standard interface to receive data from the inner queue.
pub trait QueueRecv {
    fn recv(&mut self);
}

} // verus!
