use vstd::prelude::*;
use crate::point::{cot_text, Cot};

verus! {

/// The destination of a point with the cause `cot` and the name `name`:
/// "{cot}/{name}".
pub open spec fn destination_of(cot: Cot, name: Seq<char>) -> Seq<char> {
    cot_text(cot) + "/"@ + name
}

/// Detailed definition of a subscription:
/// - name - the full name of the point to be subscribed on
/// - cot - the cause and direction of the transmission to be subscribed on
#[derive(Debug)]
pub struct SubscriptionCriteria {
    pub name: String,
    pub cot: Cot,
}

impl SubscriptionCriteria {
    /// Creates a new subscription on the point `name` with the cause `cot`.
    pub fn new(name: &str, cot: Cot) -> (res: Self)
        ensures
            res.name@ == name@,
            res.cot == cot,
    {
        SubscriptionCriteria { name: name.to_owned(), cot }
    }

    /// Returns the destination "{cot}/{name}" of a point.
    pub fn dest(cot: &Cot, name: &str) -> (res: String)
        ensures
            res@ == destination_of(*cot, name@),
    {
        let mut dest = cot.as_str().to_owned();
        dest.append("/");
        dest.append(name);
        dest
    }

    /// Returns the destination that the subscription matches.
    pub fn destination(&self) -> (res: String)
        ensures
            res@ == destination_of(self.cot, self.name@),
    {
        Self::dest(&self.cot, self.name.as_str())
    }
}

} // verus!
