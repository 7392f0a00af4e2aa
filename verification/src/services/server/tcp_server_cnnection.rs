//! The state of a JDS connection of the TCP server, and the subscriptions it
//! makes for the replies to its requests.
use vstd::prelude::*;
use crate::point::Cot;
use crate::point_config::PointConfig;
use crate::services::multi_queue::subscription_criteria::SubscriptionCriteria;
use super::jds_auth::TcpServerAuth;
use super::jds_request::criterion_is;
use super::jds_cnnection::{ConnectionEvent, ConnectionStep, JdsConnection, KeepTimer};

verus! {

/// The state of a connection's authentication.
#[derive(Debug, Clone, Copy, PartialEq, Eq, Structural)]
pub enum JdsState {
    Unknown,
    Authenticated,
}

impl JdsState {
    /// Returns the state of a code: 1 is Authenticated, any other Unknown.
    pub fn from(value: usize) -> (res: JdsState)
        ensures
            res == if value == 1 { JdsState::Authenticated } else { JdsState::Unknown },
    {
        match value {
            0 => JdsState::Unknown,
            1 => JdsState::Authenticated,
            _ => JdsState::Unknown,
        }
    }
}

/// The state shared by the handlers of a connection:
/// - tx_queue_name - the service the connection sends its points to
/// - jds_state - current state of the authentication
/// - auth - kind of authorization on the current TcpServer
pub struct Shared {
    pub tx_queue_name: String,
    pub jds_state: JdsState,
    pub auth: TcpServerAuth,
}

impl Shared {
    /// The state a connection starts in: no queue yet, and authenticated
    /// exactly when the server asks for no authentication.
    pub fn new(auth: TcpServerAuth) -> (res: Self)
        ensures
            res.tx_queue_name@ == Seq::<char>::empty(),
            res.jds_state == if auth is NoAuth { JdsState::Authenticated } else { JdsState::Unknown },
            res.auth == auth,
    {
        let jds_state = match auth {
            TcpServerAuth::NoAuth => JdsState::Authenticated,
            _ => JdsState::Unknown,
        };
        Shared { tx_queue_name: String::new(), jds_state, auth }
    }
}

/// The time a connection whose client went away is kept when none is
/// configured: 3 seconds, in nanoseconds.
pub const DEFAULT_KEEP_TIMEOUT_NANOS: u128 = 3_000_000_000;

/// A JDS connection of the TCP server, as it keeps its client:
/// - id - "{parent}/TcpServerConnection"
/// - path - "{path}/Jds"
/// - keep - the timer that keeps the connection while its client is away
pub struct TcpServerConnection {
    pub id: String,
    pub path: String,
    pub keep: KeepTimer,
}

impl TcpServerConnection {
    /// Creates the connection at the clock reading `now_nanos`, its keep
    /// timer of the configured keep timeout (in nanoseconds), else of 3
    /// seconds, started now.
    pub fn new(parent: &str, path: &str, keep_timeout_nanos: Option<u128>, now_nanos: u128) -> (res: Self)
        ensures
            res.id@ == parent@ + "/TcpServerConnection"@,
            res.path@ == path@ + "/Jds"@,
            res.keep.timeout_nanos == match keep_timeout_nanos { Some(t) => t, None => DEFAULT_KEEP_TIMEOUT_NANOS },
            res.keep.since_nanos == now_nanos,
    {
        let mut id = parent.to_owned();
        id.append("/TcpServerConnection");
        let mut p = path.to_owned();
        p.append("/Jds");
        let timeout = match keep_timeout_nanos {
            Some(t) => t,
            None => DEFAULT_KEEP_TIMEOUT_NANOS,
        };
        TcpServerConnection { id, path: p, keep: KeepTimer::new(timeout, now_nanos) }
    }

    /// The next step of the connection's loop at the clock reading
    /// `now_nanos`: a stream is served (see `after_serve`); an exit or a
    /// lost queue ends the connection; after a timeout it ends when the
    /// application exits or more than the keep timeout passed since the
    /// keep timer was last started, and waits again otherwise.
    pub fn next_step(&self, event: ConnectionEvent, exit: bool, now_nanos: u128) -> (res: ConnectionStep)
        ensures
            res == match event {
                ConnectionEvent::Continue => ConnectionStep::Serve,
                ConnectionEvent::Exit | ConnectionEvent::Disconnected => ConnectionStep::Stop,
                ConnectionEvent::Timeout => if exit || self.keep.exceeded_at(now_nanos) { ConnectionStep::Stop } else { ConnectionStep::Wait },
            },
    {
        JdsConnection::next_step(&self.keep, event, exit, now_nanos)
    }

    /// After a stream was served (its read and write loops ended), at the
    /// clock reading `now_nanos`: the keep timer starts anew, then the
    /// connection ends if the application exits and waits again otherwise.
    pub fn after_serve(&mut self, exit: bool, now_nanos: u128) -> (res: ConnectionStep)
        ensures
            final(self).id == old(self).id,
            final(self).path == old(self).path,
            final(self).keep.timeout_nanos == old(self).keep.timeout_nanos,
            final(self).keep.since_nanos == now_nanos,
            res == if exit { ConnectionStep::Stop } else { ConnectionStep::Wait },
    {
        JdsConnection::after_serve(&mut self.keep, exit, now_nanos)
    }
}

/// The TCP server connection's own subscriptions: the replies to requests
/// on each configured point, that is causes ReqCon and ReqErr, in order.
pub fn reply_criteria(points: &Vec<PointConfig>) -> (res: Vec<SubscriptionCriteria>)
    ensures
        res@.len() == 2 * points@.len(),
        forall|i: int| 0 <= i < points@.len() ==> {
            &&& #[trigger] criterion_is(res@[2 * i], points@[i].name@, Cot::ReqCon)
            &&& criterion_is(res@[2 * i + 1], points@[i].name@, Cot::ReqErr)
        },
{
    let mut res: Vec<SubscriptionCriteria> = Vec::new();
    let mut i: usize = 0;
    while i < points.len()
        invariant
            i <= points@.len(),
            res@.len() == 2 * i,
            forall|j: int| 0 <= j < i ==> {
                &&& #[trigger] criterion_is(res@[2 * j], points@[j].name@, Cot::ReqCon)
                &&& criterion_is(res@[2 * j + 1], points@[j].name@, Cot::ReqErr)
            },
        decreases points@.len() - i,
    {
        let ghost before = res@;
        res.push(SubscriptionCriteria::new(points[i].name.as_str(), Cot::ReqCon));
        res.push(SubscriptionCriteria::new(points[i].name.as_str(), Cot::ReqErr));
        assert forall|j: int| 0 <= j < i + 1 implies {
            &&& #[trigger] criterion_is(res@[2 * j], points@[j].name@, Cot::ReqCon)
            &&& criterion_is(res@[2 * j + 1], points@[j].name@, Cot::ReqErr)
        } by {
            if j < i {
                assert(res@[2 * j] == before[2 * j]);
                assert(res@[2 * j + 1] == before[2 * j + 1]);
            }
        }
        i = i + 1;
    }
    res
}

} // verus!
