use vstd::prelude::*;
use chrono::NaiveDateTime;
use crate::point::{Cot, Point, PointType, Status};
use crate::point_config::PointConfig;
use crate::maps::StrMap;
use crate::services::jds_service::request_kind::{kind_of_capture, regex_group, request_pattern, RequestKind};
use crate::services::multi_queue::subscription_criteria::SubscriptionCriteria;
use crate::text::{debug_str, debug_text, str_eq};
use super::jds_auth::TcpServerAuth;
use super::jds_cnnection::{JdsState, Shared};
use super::jds_routes::RouterReply;

verus! {

/// `reply` is a reply to the client: a String point of the given name,
/// text and cause, with status Good.
pub open spec fn is_reply(reply: Option<PointType>, tx_id: usize, name: Seq<char>, text: Seq<char>, cot: Cot, timestamp: NaiveDateTime) -> bool {
    &&& reply matches Some(PointType::String(p))
    &&& p.tx_id == tx_id
    &&& p.name@ == name
    &&& p.value@ == text
    &&& p.status == Status::Good
    &&& p.cot == cot
    &&& p.timestamp == timestamp
}

/// The text of a request point: its value if it is a String point, else empty.
pub open spec fn request_text(request: PointType) -> Seq<char> {
    match request {
        PointType::String(p) => p.value@,
        _ => Seq::empty(),
    }
}

/// The point configurations by name: each name with the last
/// configuration of that name.
pub open spec fn points_map(points: Seq<PointConfig>) -> Map<Seq<char>, PointConfig>
    decreases points.len(),
{
    if points.len() == 0 {
        Map::empty()
    } else {
        points_map(points.drop_last()).insert(points.last().name@, points.last())
    }
}

/// The names a Subscribe request subscribes on: those it gave, or else
/// those of the requester's points.
pub open spec fn subscribe_names_of(names: Option<Vec<String>>, requester_points: Seq<PointConfig>) -> Seq<Seq<char>> {
    match names {
        Some(v) => v@.map_values(|n: String| n@),
        None => requester_points.map_values(|p: PointConfig| p.name@),
    }
}

/// `c` subscribes on each of `names`, in order, with the causes Inf,
/// ActCon and ActErr.
pub open spec fn criteria_for(names: Seq<Seq<char>>, c: Seq<SubscriptionCriteria>) -> bool {
    &&& c.len() == 3 * names.len()
    &&& forall|i: int| 0 <= i < names.len() ==> {
        &&& #[trigger] criterion_is(c[3 * i], names[i], Cot::Inf)
        &&& criterion_is(c[3 * i + 1], names[i], Cot::ActCon)
        &&& criterion_is(c[3 * i + 2], names[i], Cot::ActErr)
    }
}

/// `(cot, text)` of a criterion: the point and the cause it subscribes on.
pub open spec fn criterion_is(c: SubscriptionCriteria, name: Seq<char>, cot: Cot) -> bool {
    c.name@ == name && c.cot == cot
}

/// The items of the JSON text `text`, as serde_json parses it, where it
/// is an array: each the text of a string item, `None` for an item of
/// another kind; `None` where `text` is no JSON array.
pub uninterp spec fn json_array_items(text: Seq<char>) -> Option<Seq<Option<Seq<char>>>>;

/// The texts of optional strings.
pub open spec fn items_view(items: Seq<Option<String>>) -> Seq<Option<Seq<char>>> {
    items.map_values(|o: Option<String>| match o { Some(s) => Some(s@), None => None })
}

/// Parses `text` with `serde_json::from_str` into a `serde_json::Value`
/// and, where it is an array, gives each item's `as_str`. The result depends
/// on `text` alone.
#[verifier::external_body]
fn parse_json_array(text: &str) -> (res: Option<Vec<Option<String>>>)
    ensures
        json_array_items(text@) == match res { Some(v) => Some(items_view(v@)), None => None },
{
    match serde_json::from_str::<serde_json::Value>(text) {
        Ok(value) => match value.as_array() {
            Some(items) => Some(items.iter().map(|item| item.as_str().map(|s| s.to_owned())).collect()),
            None => None,
        },
        Err(_) => None,
    }
}

/// The texts of the string items, in their order.
pub open spec fn string_items(items: Seq<Option<Seq<char>>>) -> Seq<Seq<char>>
    decreases items.len(),
{
    if items.len() == 0 {
        Seq::empty()
    } else {
        let prev = string_items(items.drop_last());
        match items.last() {
            Some(t) => prev.push(t),
            None => prev,
        }
    }
}

/// The points that a Subscribe request names: the string items of its
/// value where that is a JSON array; `None` (all the requester's points)
/// where the request is no String point or its value no JSON array.
pub open spec fn subscribe_names(request: PointType) -> Option<Seq<Seq<char>>> {
    match request {
        PointType::String(p) => match json_array_items(p.value@) {
            Some(items) => Some(string_items(items)),
            None => None,
        },
        _ => None,
    }
}

/// The kind of a request, by its point name.
pub open spec fn request_kind(request: PointType) -> RequestKind {
    kind_of_capture(regex_group(request_pattern(), request.spec_name(), 1))
}

/// What a connection does next with a request.
pub enum RequestStep {
    /// Send back this reply (nothing, where its parts are `None`).
    Reply(RouterReply),
    /// Validate `secret` with the SSH keys at `path`, then pass the outcome
    /// to `auth_ssh`.
    ValidateSsh { path: String, secret: String },
    /// Fetch the points configured for the requester, then pass them,
    /// serialized, to `points_reply`.
    Points,
    /// Subscribe the connection on the points named, or, with `None`, on all
    /// the requester's points, each with the causes of `subscribe_criteria`;
    /// then pass the outcome to `subscribe_reply`.
    Subscribe(Option<Vec<String>>),
}

/// Handles the JDS requests of a connection.
pub struct JdsRequest {}

impl JdsRequest {
    /// Handles an "Auth.Secret" request: a String request holding the
    /// server's secret authenticates the connection and is confirmed
    /// (ReqCon); anything else, or a server without a secret, is answered
    /// with an error (ReqErr) and leaves the state as it is.
    pub fn auth_secret(shared: &mut Shared, request: &PointType, tx_id: usize, reply_name: &str, timestamp: NaiveDateTime) -> (res: RouterReply)
        ensures
            ({
                let ok = old(shared).auth matches TcpServerAuth::Secret(s) && request_text(*request) == s.token@;
                &&& res.pass is None
                &&& final(shared).jds_state == if ok { JdsState::Authenticated } else { old(shared).jds_state }
                &&& ok ==> is_reply(res.retply, tx_id, reply_name@, "Authentication successful"@, Cot::ReqCon, timestamp)
                &&& !ok ==> is_reply(res.retply, tx_id, reply_name@, "Authentication error: Invalid secret or kind of auth request"@, Cot::ReqErr, timestamp)
            }),
            final(shared).auth == old(shared).auth,
            final(shared).subscribe == old(shared).subscribe,
            final(shared).subscribe_receiver == old(shared).subscribe_receiver,
            final(shared).connection_id == old(shared).connection_id,
            final(shared).cache == old(shared).cache,
            final(shared).req_reply_send == old(shared).req_reply_send,
    {
        let ok = match &shared.auth {
            TcpServerAuth::Secret(auth_secret) => {
                let secret: &str = match request {
                    PointType::String(p) => p.value.as_str(),
                    _ => {
                        proof { reveal_strlit(""); }
                        assert(""@ =~= Seq::<char>::empty());
                        ""
                    }
                };
                assert(secret@ == request_text(*request));
                str_eq(secret, auth_secret.token())
            }
            _ => false,
        };
        let (cot, message) = if ok {
            shared.jds_state = JdsState::Authenticated;
            (Cot::ReqCon, "Authentication successful")
        } else {
            (Cot::ReqErr, "Authentication error: Invalid secret or kind of auth request")
        };
        RouterReply::new(
            None,
            Some(PointType::String(Point::new(tx_id, reply_name, message.to_owned(), Status::Good, cot, timestamp))),
        )
    }

    /// Handles an "Auth.Ssh" request, given the outcome `validation` of
    /// checking the request's key against the server's SSH keys: a valid key
    /// authenticates the connection and is confirmed (ReqCon); an invalid
    /// one is answered with "Authentication error: {error}" (ReqErr), and a
    /// server without SSH keys with an error (ReqErr).
    pub fn auth_ssh(shared: &mut Shared, validation: Result<(), String>, tx_id: usize, reply_name: &str, timestamp: NaiveDateTime) -> (res: RouterReply)
        ensures
            ({
                let ssh = old(shared).auth is Ssh;
                let ok = ssh && validation is Ok;
                &&& res.pass is None
                &&& final(shared).jds_state == if ok { JdsState::Authenticated } else { old(shared).jds_state }
                &&& ok ==> is_reply(res.retply, tx_id, reply_name@, "Authentication successful"@, Cot::ReqCon, timestamp)
                &&& ssh && !ok ==> is_reply(res.retply, tx_id, reply_name@, "Authentication error: "@ + validation->Err_0@, Cot::ReqErr, timestamp)
                &&& !ssh ==> is_reply(res.retply, tx_id, reply_name@, "Authentication error: Invalid secret or kind of auth request"@, Cot::ReqErr, timestamp)
            }),
            final(shared).auth == old(shared).auth,
            final(shared).subscribe == old(shared).subscribe,
            final(shared).subscribe_receiver == old(shared).subscribe_receiver,
            final(shared).connection_id == old(shared).connection_id,
            final(shared).cache == old(shared).cache,
            final(shared).req_reply_send == old(shared).req_reply_send,
            final(shared).jds_state != old(shared).jds_state ==> old(shared).auth is Ssh && validation is Ok
                && final(shared).jds_state == JdsState::Authenticated,
    {
        let (cot, message) = match &shared.auth {
            TcpServerAuth::Ssh(_) => {
                match validation {
                    Ok(_) => {
                        shared.jds_state = JdsState::Authenticated;
                        (Cot::ReqCon, "Authentication successful".to_owned())
                    }
                    Err(err) => {
                        let mut m = "Authentication error: ".to_owned();
                        m.append(err.as_str());
                        (Cot::ReqErr, m)
                    }
                }
            }
            _ => (Cot::ReqErr, "Authentication error: Invalid secret or kind of auth request".to_owned()),
        };
        RouterReply::new(
            None,
            Some(PointType::String(Point::new(tx_id, reply_name, message, Status::Good, cot, timestamp))),
        )
    }

    /// Decides on a request, by its kind: an authentication with the
    /// server's secret is decided at once (see `auth_secret`); one with an
    /// SSH key needs the key validated where the server uses SSH keys and is
    /// refused otherwise; a Points request needs the requester's points; a
    /// Subscribe request names its points in a JSON array (or all of them);
    /// any other request gets no reply. Replies are named `parent` followed
    /// by "/Auth.Secret", "/Auth.Ssh", ...
    pub fn handle(shared: &mut Shared, request: &PointType, tx_id: usize, parent: &str, timestamp: NaiveDateTime) -> (res: RequestStep)
        ensures
            final(shared).auth == old(shared).auth,
            final(shared).subscribe == old(shared).subscribe,
            final(shared).subscribe_receiver == old(shared).subscribe_receiver,
            final(shared).connection_id == old(shared).connection_id,
            final(shared).cache == old(shared).cache,
            final(shared).req_reply_send == old(shared).req_reply_send,
            request_kind(*request) != RequestKind::AuthSecret ==> final(shared).jds_state == old(shared).jds_state,
            // whatever the request, nothing is passed on, and the state changes
            // only by a valid secret, to Authenticated
            res matches RequestStep::Reply(r) ==> r.pass is None,
            final(shared).jds_state != old(shared).jds_state ==> (request_kind(*request) == RequestKind::AuthSecret
                && (old(shared).auth matches TcpServerAuth::Secret(s) && request_text(*request) == s.token@)
                && final(shared).jds_state == JdsState::Authenticated),
            match request_kind(*request) {
                RequestKind::AuthSecret => {
                    let ok = old(shared).auth matches TcpServerAuth::Secret(s) && request_text(*request) == s.token@;
                    let name = parent@ + "/Auth.Secret"@;
                    &&& res matches RequestStep::Reply(r) && r.pass is None
                        && (ok ==> is_reply(r.retply, tx_id, name, "Authentication successful"@, Cot::ReqCon, timestamp))
                        && (!ok ==> is_reply(r.retply, tx_id, name, "Authentication error: Invalid secret or kind of auth request"@, Cot::ReqErr, timestamp))
                    &&& final(shared).jds_state == if ok { JdsState::Authenticated } else { old(shared).jds_state }
                },
                RequestKind::AuthSsh => match old(shared).auth {
                    TcpServerAuth::Ssh(p) => res matches RequestStep::ValidateSsh { path, secret }
                        && path@ == p.path@ && secret@ == request_text(*request),
                    _ => res matches RequestStep::Reply(r) && r.pass is None
                        && is_reply(r.retply, tx_id, parent@ + "/Auth.Ssh"@, "Authentication error: Invalid secret or kind of auth request"@, Cot::ReqErr, timestamp),
                },
                RequestKind::Points => res is Points,
                RequestKind::Subscribe => res matches RequestStep::Subscribe(names)
                    && match subscribe_names(*request) {
                        Some(ns) => names matches Some(v) && v@.map_values(|n: String| n@) == ns,
                        None => names is None,
                    },
                RequestKind::Unknown => res matches RequestStep::Reply(r) && r.pass is None && r.retply is None,
            },
    {
        let kind = RequestKind::from(request.name());
        match kind {
            RequestKind::AuthSecret => {
                let mut name = parent.to_owned();
                name.append("/Auth.Secret");
                RequestStep::Reply(Self::auth_secret(shared, request, tx_id, name.as_str(), timestamp))
            }
            RequestKind::AuthSsh => {
                match &shared.auth {
                    TcpServerAuth::Ssh(p) => {
                        let secret = match request {
                            PointType::String(r) => r.value.clone(),
                            _ => {
                                proof { reveal_strlit(""); }
                                assert(""@ =~= Seq::<char>::empty());
                                "".to_owned()
                            }
                        };
                        RequestStep::ValidateSsh { path: p.path().to_owned(), secret }
                    }
                    _ => {
                        let mut name = parent.to_owned();
                        name.append("/Auth.Ssh");
                        RequestStep::Reply(RouterReply::new(
                            None,
                            Some(PointType::String(Point::new(tx_id, name.as_str(),
                                "Authentication error: Invalid secret or kind of auth request".to_owned(), Status::Good, Cot::ReqErr, timestamp))),
                        ))
                    }
                }
            }
            RequestKind::Points => RequestStep::Points,
            RequestKind::Subscribe => {
                let names = match request {
                    PointType::String(r) => match parse_json_array(r.value.as_str()) {
                        Some(items) => Some(Self::strings_of(&items)),
                        None => None,
                    },
                    _ => None,
                };
                RequestStep::Subscribe(names)
            }
            RequestKind::Unknown => RequestStep::Reply(RouterReply::new(None, None)),
        }
    }

    /// The string items, in their order.
    fn strings_of(items: &Vec<Option<String>>) -> (res: Vec<String>)
        ensures
            res@.map_values(|n: String| n@) == string_items(items_view(items@)),
    {
        let mut res: Vec<String> = Vec::new();
        let mut i: usize = 0;
        while i < items.len()
            invariant
                i <= items@.len(),
                res@.map_values(|n: String| n@) == string_items(items_view(items@.take(i as int))),
            decreases items@.len() - i,
        {
            proof {
                assert(items@.take(i + 1).drop_last() =~= items@.take(i as int));
                assert(items_view(items@.take(i + 1)).drop_last() =~= items_view(items@.take(i as int)));
            }
            match &items[i] {
                Some(s) => {
                    let ghost before = res@;
                    res.push(s.clone());
                    assert(res@.map_values(|n: String| n@) =~= before.map_values(|n: String| n@).push(s@));
                }
                None => {}
            }
            i = i + 1;
        }
        assert(items@.take(items@.len() as int) =~= items@);
        res
    }

    /// The requester's point configurations by name, as the reply to a
    /// Points request holds them (serialized by the caller): each name with
    /// its configuration, a later one of the same name replacing an earlier.
    pub fn points_by_name(points: &Vec<PointConfig>) -> (res: StrMap<PointConfig>)
        ensures
            res.wf(),
            res.map() == points_map(points@),
    {
        let mut res: StrMap<PointConfig> = StrMap::new();
        let mut i: usize = 0;
        while i < points.len()
            invariant
                i <= points@.len(),
                res.wf(),
                res.map() == points_map(points@.take(i as int)),
            decreases points@.len() - i,
        {
            let conf = points[i].duplicate();
            res.insert(points[i].name.as_str().to_owned(), conf);
            assert(points@.take(i + 1).drop_last() =~= points@.take(i as int));
            i = i + 1;
        }
        assert(points@.take(points@.len() as int) =~= points@);
        res
    }

    /// The reply to a Points request: the requester's points, serialized.
    pub fn points_reply(tx_id: usize, parent: &str, points: String, timestamp: NaiveDateTime) -> (res: RouterReply)
        ensures
            res.pass is None,
            is_reply(res.retply, tx_id, parent@ + "/Points"@, points@, Cot::ReqCon, timestamp),
    {
        let mut name = parent.to_owned();
        name.append("/Points");
        RouterReply::new(None, Some(PointType::String(Point::new(tx_id, name.as_str(), points, Status::Good, Cot::ReqCon, timestamp))))
    }

    /// The reply to a Subscribe request, given the outcome of extending the
    /// connection's subscription, or `None` where no point was found to
    /// subscribe on: an empty confirmation (ReqCon) where it was extended,
    /// an error (ReqErr) otherwise, with `self_id` leading its message.
    pub fn subscribe_reply(tx_id: usize, parent: &str, self_id: &str, extended: Option<Result<(), String>>, timestamp: NaiveDateTime) -> (res: RouterReply)
        ensures
            res.pass is None,
            ({
                let name = parent@ + "/Subscribe"@;
                match extended {
                    None => is_reply(res.retply, tx_id, name,
                        self_id@ + ".handle.Subscribe | SUbscribe failed - points not found in the application"@, Cot::ReqErr, timestamp),
                    Some(Ok(())) => is_reply(res.retply, tx_id, name, Seq::empty(), Cot::ReqCon, timestamp),
                    Some(Err(e)) => is_reply(res.retply, tx_id, name,
                        self_id@ + ".handle.Subscribe | Extend subscription failed with error: "@ + debug_text(e@), Cot::ReqErr, timestamp),
                }
            }),
    {
        let mut name = parent.to_owned();
        name.append("/Subscribe");
        let (cot, message) = match extended {
            None => {
                let mut m = self_id.to_owned();
                m.append(".handle.Subscribe | SUbscribe failed - points not found in the application");
                (Cot::ReqErr, m)
            }
            Some(Ok(())) => {
                proof { reveal_strlit(""); }
                assert(""@ =~= Seq::<char>::empty());
                (Cot::ReqCon, "".to_owned())
            }
            Some(Err(e)) => {
                let mut m = self_id.to_owned();
                m.append(".handle.Subscribe | Extend subscription failed with error: ");
                let d = debug_str(e.as_str());
                m.append(d.as_str());
                (Cot::ReqErr, m)
            }
        };
        RouterReply::new(None, Some(PointType::String(Point::new(tx_id, name.as_str(), message, Status::Good, cot, timestamp))))
    }

    /// Creates the subscriptions on the point `point_name` with each of the
    /// causes `cots`, in order.
    pub fn map_points_to_creteria(point_name: &str, cots: Vec<Cot>) -> (res: Vec<SubscriptionCriteria>)
        ensures
            res@.len() == cots@.len(),
            forall|i: int| 0 <= i < cots@.len() ==> #[trigger] criterion_is(res@[i], point_name@, cots@[i]),
    {
        let mut res: Vec<SubscriptionCriteria> = Vec::new();
        let mut i: usize = 0;
        while i < cots.len()
            invariant
                i <= cots@.len(),
                res@.len() == i,
                forall|j: int| 0 <= j < i ==> #[trigger] criterion_is(res@[j], point_name@, cots@[j]),
            decreases cots@.len() - i,
        {
            res.push(SubscriptionCriteria::new(point_name, cots[i]));
            i = i + 1;
        }
        res
    }

    /// Creates the subscriptions of a client on the points `names`: each
    /// point with the causes Inf, ActCon and ActErr, in that order.
    pub fn subscribe_criteria(names: &Vec<String>) -> (res: Vec<SubscriptionCriteria>)
        ensures
            res@.len() == 3 * names@.len(),
            forall|i: int| 0 <= i < names@.len() ==> {
                &&& #[trigger] criterion_is(res@[3 * i], names@[i]@, Cot::Inf)
                &&& criterion_is(res@[3 * i + 1], names@[i]@, Cot::ActCon)
                &&& criterion_is(res@[3 * i + 2], names@[i]@, Cot::ActErr)
            },
    {
        let mut res: Vec<SubscriptionCriteria> = Vec::new();
        let mut i: usize = 0;
        while i < names.len()
            invariant
                i <= names@.len(),
                res@.len() == 3 * i,
                forall|j: int| 0 <= j < i ==> {
                    &&& #[trigger] criterion_is(res@[3 * j], names@[j]@, Cot::Inf)
                    &&& criterion_is(res@[3 * j + 1], names@[j]@, Cot::ActCon)
                    &&& criterion_is(res@[3 * j + 2], names@[j]@, Cot::ActErr)
                },
            decreases names@.len() - i,
        {
            let ghost before = res@;
            res.push(SubscriptionCriteria::new(names[i].as_str(), Cot::Inf));
            res.push(SubscriptionCriteria::new(names[i].as_str(), Cot::ActCon));
            res.push(SubscriptionCriteria::new(names[i].as_str(), Cot::ActErr));
            assert forall|j: int| 0 <= j < i + 1 implies {
                &&& #[trigger] criterion_is(res@[3 * j], names@[j]@, Cot::Inf)
                &&& criterion_is(res@[3 * j + 1], names@[j]@, Cot::ActCon)
                &&& criterion_is(res@[3 * j + 2], names@[j]@, Cot::ActErr)
            } by {
                if j < i {
                    assert(res@[3 * j] == before[3 * j]);
                    assert(res@[3 * j + 1] == before[3 * j + 1]);
                    assert(res@[3 * j + 2] == before[3 * j + 2]);
                }
            }
            i = i + 1;
        }
        res
    }

    /// The points a Subscribe request subscribes on: the names the request
    /// gave as a JSON array (`names`), or, where it gave none, the names of
    /// all the requester's points, each with the causes Inf, ActCon and
    /// ActErr (see `subscribe_criteria`). `None` where that list is empty:
    /// no subscription is then extended, and the reply is the error of
    /// `subscribe_reply(.., None, ..)`; otherwise the subscription is
    /// extended once with the list and `subscribe_reply` answers by the
    /// outcome.
    pub fn subscribe_plan(names: Option<Vec<String>>, requester_points: &Vec<PointConfig>) -> (res: Option<Vec<SubscriptionCriteria>>)
        ensures
            ({
                let src = subscribe_names_of(names, requester_points@);
                &&& (res is None <==> src.len() == 0)
                &&& res matches Some(c) ==> criteria_for(src, c@)
            }),
    {
        let names: Vec<String> = match names {
            Some(v) => v,
            None => {
                let mut v: Vec<String> = Vec::new();
                let mut i: usize = 0;
                while i < requester_points.len()
                    invariant
                        i <= requester_points@.len(),
                        v@.len() == i,
                        v@.map_values(|n: String| n@) == requester_points@.take(i as int).map_values(|p: PointConfig| p.name@),
                    decreases requester_points@.len() - i,
                {
                    let ghost prev = v@;
                    let n = requester_points[i].name.as_str().to_owned();
                    assert(n@ == requester_points@[i as int].name@);
                    v.push(n);
                    assert(prev.map_values(|n: String| n@) == requester_points@.take(i as int).map_values(|p: PointConfig| p.name@));
                    assert(requester_points@.take(i + 1) =~= requester_points@.take(i as int).push(requester_points@[i as int]));
                    assert forall|j: int| 0 <= j < i + 1 implies #[trigger] v@[j]@ == requester_points@[j].name@ by {
                        if j < i {
                            assert(v@[j] == prev[j]);
                            assert(prev.map_values(|n: String| n@)[j] == requester_points@.take(i as int).map_values(|p: PointConfig| p.name@)[j]);
                        }
                    }
                    assert(v@.map_values(|n: String| n@) =~= requester_points@.take(i + 1).map_values(|p: PointConfig| p.name@));
                    i = i + 1;
                }
                assert(requester_points@.take(requester_points@.len() as int) =~= requester_points@);
                v
            }
        };
        if names.len() == 0 {
            None
        } else {
            let c = Self::subscribe_criteria(&names);
            let ghost ns = names@.map_values(|n: String| n@);
            assert forall|i: int| 0 <= i < ns.len() implies {
                &&& #[trigger] criterion_is(c@[3 * i], ns[i], Cot::Inf)
                &&& criterion_is(c@[3 * i + 1], ns[i], Cot::ActCon)
                &&& criterion_is(c@[3 * i + 2], ns[i], Cot::ActErr)
            } by {
                assert(criterion_is(c@[3 * i], names@[i]@, Cot::Inf));
            }
            assert(criteria_for(ns, c@));
            Some(c)
        }
    }
}

} // verus!
