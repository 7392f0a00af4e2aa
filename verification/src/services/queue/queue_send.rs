use vstd::prelude::*;

verus! {

/// Holds a reference to the specific async queue / channel implementation,
/// sharing a standard interface to send data into the inner queue.
pub trait QueueSend<T> {
    fn send(&mut self, value: T) -> Result<(), String>;
}

} // verus!
