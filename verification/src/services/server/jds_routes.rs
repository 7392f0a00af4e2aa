use vstd::prelude::*;
use crate::point::{Cot, PointType};
use super::jds_cnnection::JdsState;

verus! {

/// What the routes make of an incoming point:
/// - pass - point to be transmitted to the MultiQueue
/// - retply - point to be sent back to the client
#[derive(Debug)]
pub struct RouterReply {
    pub pass: Option<PointType>,
    pub retply: Option<PointType>,
}

impl RouterReply {
    pub fn new(pass: Option<PointType>, retply: Option<PointType>) -> (res: Self)
        ensures
            res.pass == pass,
            res.retply == retply,
    {
        Self { pass, retply }
    }
}

/// The way of a point that came from a client.
#[derive(Debug)]
pub enum Route {
    /// A request, to be handled as such.
    Request(PointType),
    /// Anything else: passed on when the connection is authenticated,
    /// dropped otherwise.
    Reply(RouterReply),
}

/// Routes a point that came from a client: a request (cause Req) goes to
/// the request handler; any other point passes to the MultiQueue when the
/// connection is authenticated, and is rejected otherwise.
pub fn route(point: PointType, state: JdsState) -> (res: Route)
    ensures
        point.spec_cot() == Cot::Req ==> res == Route::Request(point),
        point.spec_cot() != Cot::Req && state == JdsState::Authenticated
            ==> res == Route::Reply(RouterReply { pass: Some(point), retply: None }),
        point.spec_cot() != Cot::Req && state == JdsState::Unknown
            ==> res == Route::Reply(RouterReply { pass: None, retply: None }),
{
    match point.cot() {
        Cot::Req => Route::Request(point),
        _ => match state {
            JdsState::Unknown => Route::Reply(RouterReply::new(None, None)),
            JdsState::Authenticated => Route::Reply(RouterReply::new(Some(point), None)),
        },
    }
}

} // verus!
