use fault_recorder::point::{Cot, Point, PointType, Status};
use fault_recorder::point_config::{PointConfig, PointConfigHistory, PointConfigType};
use fault_recorder::services::jds_service::jds_service::JdsService;
use fault_recorder::services::server::jds_auth::{AuthConf, AuthSecret, AuthSshPath, TcpServerAuth};
use fault_recorder::services::server::jds_cnnection::{ConnectionEvent, ConnectionStep, JdsConnection, JdsState, KeepTimer, Shared};
use fault_recorder::services::server::jds_request::{JdsRequest, RequestStep};
use fault_recorder::services::server::jds_routes::{route, Route, RouterReply};
use fault_recorder::services::server::tcp_server_cnnection;

fn ts() -> chrono::NaiveDateTime {
    chrono::NaiveDate::from_ymd_opt(2024, 4, 8).unwrap().and_hms_opt(8, 52, 32).unwrap()
}

fn shared(auth: TcpServerAuth) -> Shared {
    let jds_state = JdsState::initial(&auth);
    Shared {
        subscribe: "/App/MultiQueue".to_owned(),
        subscribe_receiver: "/App/Jds/127.0.0.1".to_owned(),
        jds_state,
        auth,
        connection_id: "127.0.0.1".to_owned(),
        cache: None,
        req_reply_send: vec![],
    }
}

fn request(name: &str, value: &str) -> PointType {
    PointType::String(Point::new(0, name, value.to_owned(), Status::Good, Cot::Req, ts()))
}

fn reply_text(reply: &RouterReply) -> (String, Cot, String) {
    match &reply.retply {
        Some(PointType::String(p)) => (p.name.clone(), p.cot, p.value.clone()),
        _ => panic!("String reply expected"),
    }
}

#[test]
fn auth_secret_accepts_the_secret() {
    let mut sh = shared(TcpServerAuth::Secret(AuthSecret::new("123zxy456!@#")));
    assert_eq!(sh.jds_state, JdsState::Unknown);
    let step = JdsRequest::handle(&mut sh, &request("/App/Jds/Auth.Secret", "wrong"), 1, "/App/Jds", ts());
    match step {
        RequestStep::Reply(r) => {
            assert_eq!(reply_text(&r), ("/App/Jds/Auth.Secret".to_owned(), Cot::ReqErr, "Authentication error: Invalid secret or kind of auth request".to_owned()));
        }
        _ => panic!("reply expected"),
    }
    assert_eq!(sh.jds_state, JdsState::Unknown);
    let step = JdsRequest::handle(&mut sh, &request("/App/Jds/Auth.Secret", "123zxy456!@#"), 1, "/App/Jds", ts());
    match step {
        RequestStep::Reply(r) => {
            assert!(r.pass.is_none());
            assert_eq!(reply_text(&r), ("/App/Jds/Auth.Secret".to_owned(), Cot::ReqCon, "Authentication successful".to_owned()));
        }
        _ => panic!("reply expected"),
    }
    assert_eq!(sh.jds_state, JdsState::Authenticated);
}

#[test]
fn auth_ssh_needs_validation() {
    let mut sh = shared(TcpServerAuth::Ssh(AuthSshPath::new("/keys")));
    match JdsRequest::handle(&mut sh, &request("/App/Jds/Auth.Ssh", "key"), 1, "/App/Jds", ts()) {
        RequestStep::ValidateSsh { path, secret } => {
            assert_eq!(path, "/keys");
            assert_eq!(secret, "key");
        }
        _ => panic!("validation expected"),
    }
    let r = JdsRequest::auth_ssh(&mut sh, Err("bad key".to_owned()), 1, "/App/Jds/Auth.Ssh", ts());
    assert_eq!(reply_text(&r).2, "Authentication error: bad key");
    assert_eq!(sh.jds_state, JdsState::Unknown);
    let r = JdsRequest::auth_ssh(&mut sh, Ok(()), 1, "/App/Jds/Auth.Ssh", ts());
    assert_eq!(reply_text(&r).1, Cot::ReqCon);
    assert_eq!(sh.jds_state, JdsState::Authenticated);
    // a server with a secret refuses an SSH key at once
    let mut sh = shared(TcpServerAuth::Secret(AuthSecret::new("s")));
    match JdsRequest::handle(&mut sh, &request("/App/Jds/Auth.Ssh", "key"), 1, "/App/Jds", ts()) {
        RequestStep::Reply(r) => assert_eq!(reply_text(&r).1, Cot::ReqErr),
        _ => panic!("reply expected"),
    }
}

#[test]
fn subscribe_request_names_points() {
    let mut sh = shared(TcpServerAuth::NoAuth);
    match JdsRequest::handle(&mut sh, &request("/App/Jds/Subscribe", "[\"/App/A\", 5, \"/App/B\"]"), 1, "/App/Jds", ts()) {
        RequestStep::Subscribe(Some(names)) => assert_eq!(names, vec!["/App/A".to_owned(), "/App/B".to_owned()]),
        _ => panic!("subscription on the named points expected"),
    }
    match JdsRequest::handle(&mut sh, &request("/App/Jds/Subscribe", "not json"), 1, "/App/Jds", ts()) {
        RequestStep::Subscribe(None) => {}
        _ => panic!("subscription on all points expected"),
    }
    match JdsRequest::handle(&mut sh, &request("/App/Jds/Points", ""), 1, "/App/Jds", ts()) {
        RequestStep::Points => {}
        _ => panic!("points expected"),
    }
    match JdsRequest::handle(&mut sh, &request("/App/Jds/Unknown", ""), 1, "/App/Jds", ts()) {
        RequestStep::Reply(r) => assert!(r.pass.is_none() && r.retply.is_none()),
        _ => panic!("no reply expected"),
    }
    let criteria = JdsRequest::subscribe_criteria(&vec!["/App/A".to_owned()]);
    let dests: Vec<String> = criteria.iter().map(|c| c.destination()).collect();
    assert_eq!(dests, vec!["Inf//App/A", "ActCon//App/A", "ActErr//App/A"]);
}

#[test]
fn subscribe_and_points_replies() {
    let r = JdsRequest::subscribe_reply(1, "/App/Jds", "/App/Jds/JdsRequest", None, ts());
    assert_eq!(reply_text(&r), ("/App/Jds/Subscribe".to_owned(), Cot::ReqErr, "/App/Jds/JdsRequest.handle.Subscribe | SUbscribe failed - points not found in the application".to_owned()));
    let r = JdsRequest::subscribe_reply(1, "/App/Jds", "/App/Jds/JdsRequest", Some(Ok(())), ts());
    assert_eq!(reply_text(&r), ("/App/Jds/Subscribe".to_owned(), Cot::ReqCon, String::new()));
    let r = JdsRequest::subscribe_reply(1, "/App/Jds", "id", Some(Err("no \"x\"".to_owned())), ts());
    assert_eq!(reply_text(&r).2, "id.handle.Subscribe | Extend subscription failed with error: \"no \\\"x\\\"\"");
    let r = JdsRequest::points_reply(1, "/App/Jds", "{}".to_owned(), ts());
    assert_eq!(reply_text(&r), ("/App/Jds/Points".to_owned(), Cot::ReqCon, "{}".to_owned()));
}

#[test]
fn routes_by_state() {
    let p = PointType::String(Point::new(0, "/App/X", "v".to_owned(), Status::Good, Cot::Inf, ts()));
    assert!(matches!(route(p.clone(), JdsState::Unknown), Route::Reply(RouterReply { pass: None, retply: None })));
    assert!(matches!(route(p, JdsState::Authenticated), Route::Reply(RouterReply { pass: Some(_), retply: None })));
    assert!(matches!(route(request("/App/Points", ""), JdsState::Unknown), Route::Request(_)));
    assert_eq!(JdsState::from(1), JdsState::Authenticated);
    assert_eq!(JdsState::from(0), JdsState::Unknown);
    assert_eq!(JdsState::from(7), JdsState::Unknown);
    assert_eq!(tcp_server_cnnection::JdsState::from(1), tcp_server_cnnection::JdsState::Authenticated);
    let sh = tcp_server_cnnection::Shared::new(TcpServerAuth::NoAuth);
    assert_eq!(sh.jds_state, tcp_server_cnnection::JdsState::Authenticated);
}

#[test]
fn tcp_server_auth_from_conf() {
    let c = AuthConf { key: "Auth-Secret".to_owned(), value: None, pass: Some("p".to_owned()), path: None };
    assert!(matches!(TcpServerAuth::parse(&c), Some(TcpServerAuth::Secret(s)) if s.token() == "p"));
    let c = AuthConf { key: "auth".to_owned(), value: Some("None".to_owned()), pass: None, path: None };
    assert!(matches!(TcpServerAuth::parse(&c), Some(TcpServerAuth::NoAuth)));
    let c = AuthConf { key: "auth".to_owned(), value: Some("yes".to_owned()), pass: None, path: None };
    assert!(TcpServerAuth::parse(&c).is_none());
    let c = AuthConf { key: "auth-ssh".to_owned(), value: None, pass: None, path: Some("/k".to_owned()) };
    assert!(matches!(TcpServerAuth::new(&c), TcpServerAuth::Ssh(p) if p.path() == "/k"));
}

#[test]
fn jds_service_replies() {
    let s = JdsService::new("/App", "Jds", "in-queue");
    assert_eq!(s.id, "/App/JdsService(Jds)");
    match JdsService::match_request("/App", 1, &request("/App/JdsService/Auth.Ssh", ""), ts()) {
        RequestStep::Reply(r) => {
            let (name, cot, text) = reply_text(&r);
            assert_eq!(name, "/App/JdsService/Auth.Secret");
            assert_eq!(cot, Cot::ReqCon);
            assert!(text.contains("Auth.Ssh Reply"));
        }
        _ => panic!("reply expected"),
    }
    assert!(matches!(JdsService::match_request("/App", 1, &request("/App/JdsService/Points", ""), ts()), RequestStep::Points));
    let p = JdsService::points_reply("/App", 1, "[]".to_owned(), ts());
    assert!(matches!(p, PointType::String(q) if q.name == "/App/JdsService/Points" && q.value == "[]"));
}

#[test]
fn reply_criteria_per_point() {
    let points = vec![PointConfig { id: 0, name: "/App/A".to_owned(), type_: PointConfigType::Int, history: PointConfigHistory::Off, alarm: None, address: None, filters: None, comment: None }];
    let c = tcp_server_cnnection::reply_criteria(&points);
    let dests: Vec<String> = c.iter().map(|c| c.destination()).collect();
    assert_eq!(dests, vec!["ReqCon//App/A", "ReqErr//App/A"]);
}

#[test]
fn jds_connection_names_and_steps() {
    let c = JdsConnection::new("/App/TcpServer", "/App", "127.0.0.1");
    assert_eq!(c.id, "/App/TcpServer/JdsConnection/127.0.0.1");
    assert_eq!(c.name, "/App/Jds");
    assert_eq!(c.receiver_name(), "/App/Jds/127.0.0.1");
    let keep = KeepTimer::new(3_000, 1_000);
    assert_eq!(JdsConnection::next_step(&keep, ConnectionEvent::Continue, true, 10_000), ConnectionStep::Serve);
    assert_eq!(JdsConnection::next_step(&keep, ConnectionEvent::Exit, false, 1_000), ConnectionStep::Stop);
    assert_eq!(JdsConnection::next_step(&keep, ConnectionEvent::Disconnected, false, 1_000), ConnectionStep::Stop);
    assert_eq!(JdsConnection::next_step(&keep, ConnectionEvent::Timeout, false, 4_000), ConnectionStep::Wait);
    assert_eq!(JdsConnection::next_step(&keep, ConnectionEvent::Timeout, false, 4_001), ConnectionStep::Stop);
    assert_eq!(JdsConnection::next_step(&keep, ConnectionEvent::Timeout, true, 1_500), ConnectionStep::Stop);
    let mut keep = keep;
    assert_eq!(JdsConnection::after_serve(&mut keep, false, 9_000), ConnectionStep::Wait);
    assert_eq!(keep.since_nanos, 9_000);
    assert_eq!(JdsConnection::next_step(&keep, ConnectionEvent::Timeout, false, 11_000), ConnectionStep::Wait);
    assert_eq!(JdsConnection::after_serve(&mut keep, true, 12_000), ConnectionStep::Stop);
    let sh = Shared::new("/App/MultiQueue".to_owned(), c.receiver_name(), TcpServerAuth::Secret(AuthSecret::new("s")), "127.0.0.1".to_owned(), None);
    assert_eq!(sh.jds_state, JdsState::Unknown);
    assert!(sh.req_reply_send.is_empty());
}
