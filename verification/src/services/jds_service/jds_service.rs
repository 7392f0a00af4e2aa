//! The JDS service: answers the requests of the JDS protocol that come to
//! it through the MultiQueue.
use vstd::prelude::*;
use std::sync::mpsc::{Receiver, Sender};
use chrono::NaiveDateTime;
use crate::channel::new_channel;
use crate::maps::StrMap;
use crate::point::{Cot, Point, PointType, Status};
use crate::services::server::jds_request::{request_kind, RequestStep};
use crate::services::server::jds_routes::RouterReply;
use super::request_kind::RequestKind;

verus! {

/// The text of the reply to an "Auth.Secret" request.
pub fn auth_secret_reply() -> (res: &'static str)
    ensures
        res@ == r#"{
                            \"reply\": \"Auth.Secret Reply\"
                        }"#@,
{
    r#"{
                            \"reply\": \"Auth.Secret Reply\"
                        }"#
}

/// The text of the reply to an "Auth.Ssh" request.
pub fn auth_ssh_reply() -> (res: &'static str)
    ensures
        res@ == r#"{
                            \"reply\": \"Auth.Ssh Reply\"
                        }"#@,
{
    r#"{
                            \"reply\": \"Auth.Ssh Reply\"
                        }"#
}

/// The text of the reply to a "Subscribe" request.
pub fn subscribe_reply() -> (res: &'static str)
    ensures
        res@ == r#"{
                            \"reply\": \"Subscribe\"
                        }"#@,
{
    r#"{
                            \"reply\": \"Subscribe\"
                        }"#
}

/// `p` is a confirmation (ReqCon, status Good) named `name` with the text `text`.
pub open spec fn is_service_reply(p: PointType, tx_id: usize, name: Seq<char>, text: Seq<char>, timestamp: NaiveDateTime) -> bool {
    &&& p matches PointType::String(q)
    &&& q.tx_id == tx_id
    &&& q.name@ == name
    &&& q.value@ == text
    &&& q.status == Status::Good
    &&& q.cot == Cot::ReqCon
    &&& q.timestamp == timestamp
}

/// `res` replies with a confirmation named `name` with the text `text`.
pub open spec fn replies(res: RequestStep, tx_id: usize, name: Seq<char>, text: Seq<char>, timestamp: NaiveDateTime) -> bool {
    &&& res matches RequestStep::Reply(r)
    &&& r.pass is None
    &&& r.retply is Some
    &&& is_service_reply(r.retply.unwrap(), tx_id, name, text, timestamp)
}

/// The JDS service:
/// - rx_send - the senders into its in-queue, by name
/// - requests - the requests it knows of
pub struct JdsService {
    pub id: String,
    pub parent: String,
    pub rx_send: StrMap<Sender<PointType>>,
    pub rx_recv: Vec<Receiver<PointType>>,
    pub requests: StrMap<String>,
}

impl JdsService {
    /// Creates a new service "{parent}/JdsService({name})" with a new
    /// in-queue linked under `rx`.
    pub fn new(parent: &str, name: &str, rx: &str) -> (res: Self)
        ensures
            res.id@ == parent@ + "/JdsService("@ + name@ + ")"@,
            res.parent@ == parent@,
            res.rx_send.wf(),
            res.rx_send.map().dom() == set![rx@],
            res.rx_recv@.len() == 1,
            res.requests.wf(),
            res.requests.map() == Map::<Seq<char>, String>::empty(),
    {
        let (send, recv) = new_channel();
        let mut rx_send: StrMap<Sender<PointType>> = StrMap::new();
        rx_send.insert(rx.to_owned(), send);
        let mut rx_recv: Vec<Receiver<PointType>> = Vec::new();
        rx_recv.push(recv);
        let mut id = parent.to_owned();
        id.append("/JdsService(");
        id.append(name);
        id.append(")");
        proof {
            assert(rx_send.map().dom() =~= set![rx@]);
        }
        JdsService { id, parent: parent.to_owned(), rx_send, rx_recv, requests: StrMap::new() }
    }

    /// Decides on a request, by its kind: authentication and subscription
    /// requests are confirmed at once with a fixed text (an "Auth.Ssh"
    /// request under the name of "Auth.Secret"); a Points request needs the
    /// points configured, serialized, for `points_reply`; any other request
    /// gets no reply.
    pub fn match_request(parent: &str, tx_id: usize, request: &PointType, timestamp: NaiveDateTime) -> (res: RequestStep)
        ensures
            match request_kind(*request) {
                RequestKind::AuthSecret => replies(res, tx_id, parent@ + "/JdsService/Auth.Secret"@, r#"{
                            \"reply\": \"Auth.Secret Reply\"
                        }"#@, timestamp),
                RequestKind::AuthSsh => replies(res, tx_id, parent@ + "/JdsService/Auth.Secret"@, r#"{
                            \"reply\": \"Auth.Ssh Reply\"
                        }"#@, timestamp),
                RequestKind::Points => res is Points,
                RequestKind::Subscribe => replies(res, tx_id, parent@ + "/JdsService/Subscribe"@, r#"{
                            \"reply\": \"Subscribe\"
                        }"#@, timestamp),
                RequestKind::Unknown => res matches RequestStep::Reply(r) && r.pass is None && r.retply is None,
            },
    {
        let kind = RequestKind::from(request.name());
        match kind {
            RequestKind::AuthSecret => {
                let mut name = parent.to_owned();
                name.append("/JdsService/Auth.Secret");
                let text = auth_secret_reply().to_owned();
                RequestStep::Reply(RouterReply::new(None, Some(PointType::String(Point::new(tx_id, name.as_str(), text, Status::Good, Cot::ReqCon, timestamp)))))
            }
            RequestKind::AuthSsh => {
                let mut name = parent.to_owned();
                name.append("/JdsService/Auth.Secret");
                let text = auth_ssh_reply().to_owned();
                RequestStep::Reply(RouterReply::new(None, Some(PointType::String(Point::new(tx_id, name.as_str(), text, Status::Good, Cot::ReqCon, timestamp)))))
            }
            RequestKind::Points => RequestStep::Points,
            RequestKind::Subscribe => {
                let mut name = parent.to_owned();
                name.append("/JdsService/Subscribe");
                let text = subscribe_reply().to_owned();
                RequestStep::Reply(RouterReply::new(None, Some(PointType::String(Point::new(tx_id, name.as_str(), text, Status::Good, Cot::ReqCon, timestamp)))))
            }
            RequestKind::Unknown => RequestStep::Reply(RouterReply::new(None, None)),
        }
    }

    /// The reply to a Points request: the points configured, serialized,
    /// named "{parent}/JdsService/Points".
    pub fn points_reply(parent: &str, tx_id: usize, points: String, timestamp: NaiveDateTime) -> (res: PointType)
        ensures
            is_service_reply(res, tx_id, parent@ + "/JdsService/Points"@, points@, timestamp),
    {
        let mut name = parent.to_owned();
        name.append("/JdsService/Points");
        PointType::String(Point::new(tx_id, name.as_str(), points, Status::Good, Cot::ReqCon, timestamp))
    }
}

} // verus!
