use fault_recorder::error_limit::ErrorLimit;
use fault_recorder::point::{Cot, Point, PointType, Status};
use fault_recorder::point_config::{PointConfig, PointConfigHistory, PointConfigType};
use fault_recorder::services::cache::cache_service::{CacheAction, CacheEvent, CacheService};
use fault_recorder::services::cache::delay_store::DelyStore;
use fault_recorder::services::diagnosis::diag_point::DiagKeywd;
use fault_recorder::services::server::jds_cnnection::JdsConnection;
use fault_recorder::services::server::jds_request::JdsRequest;
use fault_recorder::services::write_reply::{profinet_write_actions, read_step, slmp_client_after, slmp_client_connected, slmp_client_start, slmp_client_started, slmp_read_exit, slmp_read_step, slmp_write_actions, write_step, DeviceAction, WriteStep};
use fault_recorder::services::server::jds_cnnection::{ConnectionEvent, ConnectionStep};
use fault_recorder::services::server::tcp_server_cnnection::{TcpServerConnection, DEFAULT_KEEP_TIMEOUT_NANOS};
use fault_recorder::services::api_cient::api_client::{ApiAction, ApiClient};
use std::time::Duration;

fn ts() -> chrono::NaiveDateTime {
    chrono::NaiveDate::from_ymd_opt(2024, 4, 8).unwrap().and_hms_opt(8, 52, 32).unwrap()
}

fn int_point(name: &str, value: i64) -> PointType {
    PointType::Int(Point::new(0, name, value, Status::Good, Cot::Inf, ts()))
}

fn conf(name: &str) -> PointConfig {
    PointConfig {
        id: 0,
        name: name.to_owned(),
        type_: PointConfigType::Int,
        history: PointConfigHistory::Off,
        alarm: None,
        address: None,
        filters: None,
        comment: None,
    }
}

fn error_point(actions: &[DeviceAction]) -> &Point<String> {
    actions.iter().find_map(|a| match a {
        DeviceAction::Send(PointType::String(p)) => Some(p),
        _ => None,
    }).expect("an error point")
}

#[test]
fn slmp_write_beyond_limit_signals_exit_stores_invalid_and_ends() {
    let point = int_point("/App/Plc/Db1/Int", 5);
    let mut errors = ErrorLimit::new(0);
    let actions = slmp_write_actions(write_step(&mut errors, 2, point, Err("refused".to_owned()), ts()));
    assert_eq!(actions.len(), 4);
    assert!(matches!(actions[0], DeviceAction::SignalExit));
    assert!(matches!(actions[1], DeviceAction::StoreStatus(Status::Invalid)));
    assert!(matches!(&actions[2], DeviceAction::Send(PointType::String(p)) if p.value == "Write error: refused" && p.cot == Cot::ActErr));
    assert!(matches!(actions[3], DeviceAction::End));
    assert_eq!(error_point(&actions).name, "/App/Plc/Db1/Int");
}

#[test]
fn slmp_write_confirms_and_counts() {
    let mut errors = ErrorLimit::new(3);
    let ok = slmp_write_actions(write_step(&mut errors, 2, int_point("/App/Plc/Db1/Int", 5), Ok(()), ts()));
    assert!(matches!(&ok[..], [DeviceAction::Send(PointType::Int(p))] if p.cot == Cot::ActCon));
    let failed = slmp_write_actions(write_step(&mut errors, 2, int_point("/App/Plc/Db1/Int", 5), Err("e".to_owned()), ts()));
    assert!(failed.is_empty());
    assert!(matches!(slmp_write_actions(WriteStep::Failed).len(), 0));
}

#[test]
fn profinet_write_beyond_limit_reports_closes_and_reconnects() {
    let mut errors = ErrorLimit::new(0);
    let actions = profinet_write_actions(write_step(&mut errors, 2, int_point("/App/Dev/Db1/Int", 5), Err("x".to_owned()), ts()));
    assert_eq!(actions.len(), 4);
    assert!(matches!(actions[0], DeviceAction::YieldDiagnosis(DiagKeywd::Connection, Status::Invalid)));
    assert!(matches!(&actions[1], DeviceAction::Send(PointType::String(p)) if p.value == "Write error: x"));
    assert!(matches!(actions[2], DeviceAction::Close));
    assert!(matches!(actions[3], DeviceAction::Reconnect));
}

#[test]
fn profinet_read_errors_lead_to_reconnect() {
    let mut errors = ErrorLimit::new(1);
    assert!(read_step(&mut errors, &Err("e".to_owned())).is_empty());
    let actions = read_step(&mut errors, &Err("e".to_owned()));
    assert_eq!(actions.len(), 4);
    assert!(matches!(actions[0], DeviceAction::YieldDiagnosis(DiagKeywd::Connection, Status::Invalid)));
    assert!(matches!(actions[1], DeviceAction::Close));
    assert!(matches!(actions[2], DeviceAction::YieldStatus(Status::Invalid)));
    assert!(matches!(actions[3], DeviceAction::Reconnect));
    assert!(read_step(&mut errors, &Ok(())).is_empty());
    assert_eq!(errors.errors, 0);
}

#[test]
fn cache_steps_store_when_exceeded_and_on_exit() {
    let mut service = CacheService::new("/App/Cache");
    assert_eq!(CacheService::on_event(&mut service.cache, CacheEvent::Point(int_point("/App/I", 1)), false), CacheAction::Continue);
    assert_eq!(CacheService::on_event(&mut service.cache, CacheEvent::Point(int_point("/App/I", 2)), true), CacheAction::Store);
    let all = CacheService::gi(&service.cache, &[]);
    assert_eq!(all.len(), 1);
    assert!(matches!(&all[0], PointType::Int(p) if p.value == 2));
    assert_eq!(CacheService::on_event(&mut service.cache, CacheEvent::Timeout, true), CacheAction::Continue);
    assert_eq!(CacheService::on_event(&mut service.cache, CacheEvent::Disconnected, true), CacheAction::Stop { store: false });
    let mut dely = DelyStore::new(Duration::from_secs(3600));
    assert_eq!(CacheService::on_exit(&dely, false), CacheAction::Continue);
    assert_eq!(CacheService::on_exit(&dely, true), CacheAction::Stop { store: true });
    CacheService::on_stored(&mut dely, &Err("disk full".to_owned()));
    assert!(!dely.stored());
    CacheService::on_stored(&mut dely, &Ok(()));
    assert!(dely.stored());
    assert_eq!(CacheService::on_exit(&dely, true), CacheAction::Stop { store: false });
}

#[test]
fn dely_store_exceeded_at_compares_nanos() {
    let mut dely = DelyStore::new(Duration::from_millis(5));
    assert_eq!(dely.delay_nanos, 5_000_000);
    dely.set_stored();
    assert!(!dely.exceeded_at(4_999_999));
    assert!(!dely.stored());
    assert!(dely.exceeded_at(5_000_000));
    let mut zero = DelyStore::new(Duration::ZERO);
    assert!(zero.exceeded());
}

#[test]
fn subscribe_plan_takes_names_or_all_points() {
    let given = JdsRequest::subscribe_plan(Some(vec!["/App/A".to_owned()]), &vec![conf("/App/X")]).unwrap();
    let dests: Vec<String> = given.iter().map(|c| c.destination()).collect();
    assert_eq!(dests, vec!["Inf//App/A", "ActCon//App/A", "ActErr//App/A"]);
    let all = JdsRequest::subscribe_plan(None, &vec![conf("/App/X"), conf("/App/Y")]).unwrap();
    assert_eq!(all.len(), 6);
    assert_eq!(all[3].destination(), "Inf//App/Y");
    assert!(JdsRequest::subscribe_plan(Some(vec![]), &vec![conf("/App/X")]).is_none());
    assert!(JdsRequest::subscribe_plan(None, &vec![]).is_none());
}

#[test]
fn connection_subscribes_on_replies_and_unsubscribes_all() {
    let c = JdsConnection::new("/App/TcpServer", "/App", "10.0.0.1");
    let sub = c.subscription("/App/MultiQueue", &vec![conf("/App/A")]);
    assert_eq!(sub.service, "/App/MultiQueue");
    assert_eq!(sub.receiver, "/App/Jds/10.0.0.1");
    let dests: Vec<String> = sub.criteria.iter().map(|c| c.destination()).collect();
    assert_eq!(dests, vec!["ReqCon//App/A", "ReqErr//App/A"]);
    let (service, receiver, points) = sub.unsubscription();
    assert_eq!((service.as_str(), receiver.as_str(), points.len()), ("/App/MultiQueue", "/App/Jds/10.0.0.1", 0));
}

#[test]
fn tcp_server_connection_keeps_three_seconds_by_default() {
    let mut c = TcpServerConnection::new("/App/TcpServer", "/App", None, 10);
    assert_eq!(c.id, "/App/TcpServer/TcpServerConnection");
    assert_eq!(c.path, "/App/Jds");
    assert_eq!(c.keep.timeout_nanos, DEFAULT_KEEP_TIMEOUT_NANOS);
    assert_eq!(c.keep.timeout_nanos, 3_000_000_000);
    assert_eq!(c.next_step(ConnectionEvent::Timeout, false, 3_000_000_010), ConnectionStep::Wait);
    assert_eq!(c.next_step(ConnectionEvent::Timeout, false, 3_000_000_011), ConnectionStep::Stop);
    assert_eq!(c.next_step(ConnectionEvent::Continue, false, 3_000_000_011), ConnectionStep::Serve);
    assert_eq!(c.after_serve(false, 5_000_000_000), ConnectionStep::Wait);
    assert_eq!(c.next_step(ConnectionEvent::Timeout, false, 7_000_000_000), ConnectionStep::Wait);
    assert_eq!(c.next_step(ConnectionEvent::Exit, false, 5_000_000_000), ConnectionStep::Stop);
    assert_eq!(c.next_step(ConnectionEvent::Disconnected, false, 5_000_000_000), ConnectionStep::Stop);
    let configured = TcpServerConnection::new("/App/TcpServer", "/App", Some(500), 0);
    assert_eq!(configured.next_step(ConnectionEvent::Timeout, false, 501), ConnectionStep::Stop);
    assert_eq!(configured.next_step(ConnectionEvent::Timeout, true, 1), ConnectionStep::Stop);
}

#[test]
fn api_string_messages_are_sent_in_arrival_order() {
    let sql = |s: &str| PointType::String(Point::new(0, "/App/Sql", s.to_owned(), Status::Good, Cot::Inf, ts()));
    let mut buffer: Vec<PointType> = Vec::new();
    ApiClient::take_received(&mut buffer, Some(sql("a")));
    ApiClient::take_received(&mut buffer, Some(int_point("/App/I", 1)));
    ApiClient::take_received(&mut buffer, Some(sql("b")));
    let mut sent = vec![];
    while let Some(ApiAction::Send(q)) = ApiClient::head_action(&buffer) {
        sent.push(q);
        ApiClient::accept_reply(&mut buffer, &Ok(false));
    }
    assert_eq!(sent, vec!["a".to_owned(), "b".to_owned()]);
    assert!(buffer.is_empty());
}

#[test]
fn slmp_read_and_client_steps() {
    let mut errors = ErrorLimit::new(1);
    assert!(slmp_read_step(&mut errors, &Err("e".to_owned())).is_empty());
    let actions = slmp_read_step(&mut errors, &Err("e".to_owned()));
    assert!(matches!(&actions[..], [DeviceAction::StoreStatus(Status::Invalid), DeviceAction::SignalExit, DeviceAction::End]));
    assert!(slmp_read_step(&mut errors, &Ok(())).is_empty());
    assert_eq!(errors.errors, 0);
    assert!(matches!(&slmp_read_exit(Status::Invalid)[..], [DeviceAction::YieldStatus(Status::Invalid)]));
    assert!(slmp_read_exit(Status::Good).is_empty());
    assert!(matches!(&slmp_client_start()[..], [DeviceAction::YieldDiagnosis(DiagKeywd::Status, Status::Good), DeviceAction::YieldDiagnosis(DiagKeywd::Connection, Status::Invalid)]));
    assert!(matches!(&slmp_client_connected(true)[..], [DeviceAction::YieldDiagnosis(DiagKeywd::Connection, Status::Good)]));
    assert!(matches!(&slmp_client_connected(false)[..], [DeviceAction::YieldDiagnosis(DiagKeywd::Connection, Status::Invalid)]));
    assert!(slmp_client_started(true, true).is_empty());
    assert!(matches!(&slmp_client_started(true, false)[..], [DeviceAction::YieldDiagnosis(DiagKeywd::Status, Status::Invalid), DeviceAction::SignalExit]));
    assert!(matches!(slmp_client_after(true), DeviceAction::End));
    assert!(matches!(slmp_client_after(false), DeviceAction::Reconnect));
}

#[test]
fn points_reply_map_by_name() {
    let mut a2 = conf("/App/A");
    a2.id = 7;
    let m = JdsRequest::points_by_name(&vec![conf("/App/A"), conf("/App/B"), a2]);
    assert_eq!(m.len(), 2);
    assert_eq!(m.get("/App/A").unwrap().id, 7);
    assert_eq!(m.get("/App/B").unwrap().id, 0);
}
