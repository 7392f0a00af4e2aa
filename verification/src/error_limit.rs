//! A count of consecutive errors against a limit.
use vstd::prelude::*;

verus! {

/// Counts the errors since the last success; more than `limit` of them in
/// a row mean the connection is to be made anew.
pub struct ErrorLimit {
    pub limit: usize,
    pub errors: usize,
}

impl ErrorLimit {
    /// The count stays within the limit.
    pub open spec fn wf(&self) -> bool {
        self.errors <= self.limit
    }

    /// Creates a new count for `limit` errors.
    pub fn new(limit: usize) -> (res: Self)
        ensures
            res.wf(),
            res.limit == limit,
            res.errors == 0,
    {
        ErrorLimit { limit, errors: 0 }
    }

    /// Counts one more error; an error once `limit` errors were counted
    /// since the last reset (the count then stays).
    pub fn add(&mut self) -> (res: Result<(), ()>)
        requires
            old(self).wf(),
        ensures
            final(self).wf(),
            final(self).limit == old(self).limit,
            old(self).errors < old(self).limit ==> res is Ok && final(self).errors == old(self).errors + 1,
            old(self).errors >= old(self).limit ==> res is Err && final(self).errors == old(self).errors,
    {
        if self.errors < self.limit {
            self.errors = self.errors + 1;
            Ok(())
        } else {
            Err(())
        }
    }

    /// Starts counting anew after a success.
    pub fn reset(&mut self)
        ensures
            final(self).wf(),
            final(self).limit == old(self).limit,
            final(self).errors == 0,
    {
        self.errors = 0;
    }
}

} // verus!
