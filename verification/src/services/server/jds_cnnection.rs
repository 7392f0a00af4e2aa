use vstd::prelude::*;
use std::sync::mpsc::Sender;
use crate::point::{Cot, PointType};
use crate::point_config::PointConfig;
use crate::services::multi_queue::subscription_criteria::SubscriptionCriteria;
use super::jds_request::criterion_is;
use super::tcp_server_cnnection::reply_criteria;
use super::jds_auth::TcpServerAuth;

verus! {

/// The state of a connection's authentication.
#[derive(Debug, Clone, Copy, PartialEq, Eq, Structural)]
pub enum JdsState {
    Unknown,
    Authenticated,
}

impl JdsState {
    /// Returns the state of a code: 1 is Authenticated, any other Unknown.
    pub fn from(value: usize) -> (res: JdsState)
        ensures
            res == if value == 1 { JdsState::Authenticated } else { JdsState::Unknown },
    {
        match value {
            0 => JdsState::Unknown,
            1 => JdsState::Authenticated,
            _ => JdsState::Unknown,
        }
    }

    /// The state a connection starts in: authenticated when the server asks
    /// for no authentication.
    pub fn initial(auth: &TcpServerAuth) -> (res: JdsState)
        ensures
            res == if auth is NoAuth { JdsState::Authenticated } else { JdsState::Unknown },
    {
        match auth {
            TcpServerAuth::NoAuth => JdsState::Authenticated,
            _ => JdsState::Unknown,
        }
    }
}

/// The state shared by a connection's handlers:
/// - subscribe - service (MultiQueue) to be subscribed on
/// - subscribe_receiver - own name, for example '/App/Jds/127.0.0.1'
/// - jds_state - current state of the authentication
/// - auth - kind of authorization on the current TcpServer
/// - connection_id - remote IP for now
/// - cache - name of the CacheService
/// - req_reply_send - to send points to the client
pub struct Shared {
    pub subscribe: String,
    pub subscribe_receiver: String,
    pub jds_state: JdsState,
    pub auth: TcpServerAuth,
    pub connection_id: String,
    pub cache: Option<String>,
    pub req_reply_send: Vec<Sender<PointType>>,
}

impl Shared {
    /// The state a connection starts in: subscribed through `subscribe` as
    /// `subscribe_receiver`, authenticated exactly when the server asks for
    /// no authentication, no sender for the replies yet.
    pub fn new(subscribe: String, subscribe_receiver: String, auth: TcpServerAuth, connection_id: String, cache: Option<String>) -> (res: Self)
        ensures
            res.subscribe == subscribe,
            res.subscribe_receiver == subscribe_receiver,
            res.jds_state == if auth is NoAuth { JdsState::Authenticated } else { JdsState::Unknown },
            res.auth == auth,
            res.connection_id == connection_id,
            res.cache == cache,
            res.req_reply_send@.len() == 0,
    {
        let jds_state = JdsState::initial(&auth);
        Shared { subscribe, subscribe_receiver, jds_state, auth, connection_id, cache, req_reply_send: Vec::new() }
    }
}

/// What came to a connection's loop while it waited.
#[derive(Debug, Clone, Copy, PartialEq, Eq, Structural)]
pub enum ConnectionEvent {
    /// A stream to serve (the client connected again).
    Continue,
    /// The server asks the connection to end.
    Exit,
    /// Nothing came in time.
    Timeout,
    /// The server's side of the queue is gone.
    Disconnected,
}

/// What a connection's loop does next.
#[derive(Debug, Clone, Copy, PartialEq, Eq, Structural)]
pub enum ConnectionStep {
    /// Serve the stream, then wait again.
    Serve,
    /// Wait again.
    Wait,
    /// End the connection.
    Stop,
}

/// A JDS connection of the TCP server:
/// - id - "{parent_id}/JdsConnection/{connection_id}"
/// - name - "{parent}/Jds", the connection subscribes as "{name}/{connection_id}"
pub struct JdsConnection {
    pub id: String,
    pub name: String,
    pub connection_id: String,
}

impl JdsConnection {
    /// Creates a new connection of the server `parent_id` named `parent`.
    pub fn new(parent_id: &str, parent: &str, connection_id: &str) -> (res: Self)
        ensures
            res.id@ == parent_id@ + "/JdsConnection/"@ + connection_id@,
            res.name@ == parent@ + "/Jds"@,
            res.connection_id@ == connection_id@,
    {
        let mut id = parent_id.to_owned();
        id.append("/JdsConnection/");
        id.append(connection_id);
        let mut name = parent.to_owned();
        name.append("/Jds");
        JdsConnection { id, name, connection_id: connection_id.to_owned() }
    }

    /// The name the connection subscribes with: "{name}/{connection_id}".
    pub fn receiver_name(&self) -> (res: String)
        ensures
            res@ == self.name@ + "/"@ + self.connection_id@,
    {
        let mut r = self.name.clone();
        r.append("/");
        r.append(self.connection_id.as_str());
        r
    }

    /// The connection's subscription, made once when it starts: through the
    /// service `subscribe`, as `receiver_name()`, on the replies (ReqCon and
    /// ReqErr) to requests on each of the requester's `points`, in order.
    /// When the connection ends, `unsubscription` gives the one call that
    /// cancels it.
    pub fn subscription(&self, subscribe: &str, points: &Vec<PointConfig>) -> (res: ConnectionSubscription)
        ensures
            res.service@ == subscribe@,
            res.receiver@ == self.name@ + "/"@ + self.connection_id@,
            res.criteria@.len() == 2 * points@.len(),
            forall|i: int| 0 <= i < points@.len() ==> {
                &&& #[trigger] criterion_is(res.criteria@[2 * i], points@[i].name@, Cot::ReqCon)
                &&& criterion_is(res.criteria@[2 * i + 1], points@[i].name@, Cot::ReqErr)
            },
    {
        ConnectionSubscription {
            service: subscribe.to_owned(),
            receiver: self.receiver_name(),
            criteria: reply_criteria(points),
        }
    }

    /// The next step of the loop, given what came (`event`), whether the
    /// application exits, and the monotonic clock reading `now_nanos`: a
    /// stream is served (see `after_serve`); an exit or a lost queue ends the
    /// connection; after a timeout it ends when the application exits or
    /// more than the keep timeout passed since the keep timer was last
    /// started, and waits again otherwise.
    pub fn next_step(keep: &KeepTimer, event: ConnectionEvent, exit: bool, now_nanos: u128) -> (res: ConnectionStep)
        ensures
            res == match event {
                ConnectionEvent::Continue => ConnectionStep::Serve,
                ConnectionEvent::Exit | ConnectionEvent::Disconnected => ConnectionStep::Stop,
                ConnectionEvent::Timeout => if exit || keep.exceeded_at(now_nanos) { ConnectionStep::Stop } else { ConnectionStep::Wait },
            },
    {
        match event {
            ConnectionEvent::Continue => ConnectionStep::Serve,
            ConnectionEvent::Exit => ConnectionStep::Stop,
            ConnectionEvent::Disconnected => ConnectionStep::Stop,
            ConnectionEvent::Timeout => {
                if exit || keep.is_exceeded(now_nanos) { ConnectionStep::Stop } else { ConnectionStep::Wait }
            }
        }
    }

    /// After a stream was served, at the clock reading `now_nanos`: the keep
    /// timer starts anew from now, then the connection ends if the
    /// application exits and waits again otherwise (no time has passed on the
    /// restarted timer).
    pub fn after_serve(keep: &mut KeepTimer, exit: bool, now_nanos: u128) -> (res: ConnectionStep)
        ensures
            final(keep).timeout_nanos == old(keep).timeout_nanos,
            final(keep).since_nanos == now_nanos,
            !final(keep).exceeded_at(now_nanos),
            res == if exit { ConnectionStep::Stop } else { ConnectionStep::Wait },
    {
        keep.since_nanos = now_nanos;
        if exit || keep.is_exceeded(now_nanos) { ConnectionStep::Stop } else { ConnectionStep::Wait }
    }
}

/// A connection's subscription: the service it goes through, the receiver
/// name and the points subscribed on.
pub struct ConnectionSubscription {
    pub service: String,
    pub receiver: String,
    pub criteria: Vec<SubscriptionCriteria>,
}

impl ConnectionSubscription {
    /// The call that cancels the subscription when the connection ends:
    /// the same service and receiver, with no points named (all of them).
    pub fn unsubscription(&self) -> (res: (String, String, Vec<SubscriptionCriteria>))
        ensures
            res.0@ == self.service@,
            res.1@ == self.receiver@,
            res.2@.len() == 0,
    {
        (self.service.as_str().to_owned(), self.receiver.as_str().to_owned(), Vec::new())
    }
}

/// The timer that keeps a connection whose client went away: it is started
/// at a monotonic clock reading, and the connection may wait for its client
/// to come again until more than `timeout_nanos` passed.
#[derive(Debug, Clone, Copy, PartialEq, Eq, Structural)]
pub struct KeepTimer {
    pub timeout_nanos: u128,
    pub since_nanos: u128,
}

impl KeepTimer {
    /// The time passed at `now` since the timer started (none where `now`
    /// is not later).
    pub open spec fn elapsed(self, now: u128) -> int {
        if now >= self.since_nanos { now - self.since_nanos } else { 0 }
    }

    /// More than the timeout passed at `now`.
    pub open spec fn exceeded_at(self, now: u128) -> bool {
        self.elapsed(now) > self.timeout_nanos
    }

    /// A timer of `timeout_nanos`, started at `now_nanos`.
    pub fn new(timeout_nanos: u128, now_nanos: u128) -> (res: Self)
        ensures
            res.timeout_nanos == timeout_nanos,
            res.since_nanos == now_nanos,
    {
        KeepTimer { timeout_nanos, since_nanos: now_nanos }
    }

    /// Whether more than the timeout passed at `now_nanos`.
    pub fn is_exceeded(&self, now_nanos: u128) -> (res: bool)
        ensures
            res == self.exceeded_at(now_nanos),
    {
        now_nanos >= self.since_nanos && now_nanos - self.since_nanos > self.timeout_nanos
    }
}

} // verus!
