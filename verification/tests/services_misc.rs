use fault_recorder::maps::StrMap;
use fault_recorder::point::{point_tx_id, Cot, Point, PointType, Status};
use fault_recorder::point_config::{PointConfig, PointConfigHistory, PointConfigType};
use fault_recorder::services::api_cient::api_client::{ApiAction, ApiClient, ApiClientConfig};
use fault_recorder::services::api_cient::api_query::ApiQuery;
use fault_recorder::services::profinet_client::s7::filter::{Filter, FilterEmpty};
use fault_recorder::services::queue::queue_send::QueueSend;
use fault_recorder::services::queue::queue_send_mpsc_channel::QueueSendMpscChannel;
use fault_recorder::services::queue::queues;
use fault_recorder::services::queue_name::QueueName;
use fault_recorder::services::queues::queues as text_queues;
use fault_recorder::services::retain_point_id::{RetainPointId, RetainedPointConfig};
use fault_recorder::services::server::jds_request::JdsRequest;
use fault_recorder::services::server::tcp_server::ConnectionInfo;
use fault_recorder::services::services::Services;
use std::sync::mpsc;

fn ts() -> chrono::NaiveDateTime {
    chrono::NaiveDate::from_ymd_opt(2024, 4, 8).unwrap().and_hms_opt(8, 52, 32).unwrap()
}

fn conf(name: &str) -> PointConfig {
    PointConfig { id: 0, name: name.to_owned(), type_: PointConfigType::Int, history: PointConfigHistory::Off, alarm: None, address: None, filters: None, comment: None }
}

fn sql_point(sql: &str) -> PointType {
    PointType::String(Point::new(0, "/App/Sql", sql.to_owned(), Status::Good, Cot::Inf, ts()))
}

#[test]
fn api_client_sends_sql_points_in_order() {
    let config = ApiClientConfig {
        name: "/App/ApiClient".to_owned(),
        rx: "in-queue".to_owned(),
        rx_max_len: 100,
        address: "127.0.0.1:8080".to_owned(),
        auth_token: String::new(),
        database: "db".to_owned(),
        cycle: None,
        debug: false,
    };
    let client = ApiClient::new(config);
    assert_eq!(client.id, "/App/ApiClient");
    let link = client.get_link("in-queue");
    link.send(sql_point("select 1;")).unwrap();
    link.send(PointType::Int(Point::new(0, "/App/I", 1, Status::Good, Cot::Inf, ts()))).unwrap();
    let mut buffer = vec![];
    link.send(sql_point("select 2;")).unwrap();
    ApiClient::read_queue(&client.recv[0], &mut buffer);
    assert_eq!(buffer.len(), 2);
    match ApiClient::head_action(&buffer) {
        Some(ApiAction::Send(sql)) => assert_eq!(sql, "select 1;"),
        _ => panic!("send expected"),
    }
    ApiClient::accept_reply(&mut buffer, &Ok(true));
    assert_eq!(buffer.len(), 2);
    ApiClient::accept_reply(&mut buffer, &Err("down".to_owned()));
    assert_eq!(buffer.len(), 2);
    ApiClient::accept_reply(&mut buffer, &Ok(false));
    assert_eq!(buffer.len(), 1);
    match ApiClient::head_action(&buffer) {
        Some(ApiAction::Send(sql)) => assert_eq!(sql, "select 2;"),
        _ => panic!("send expected"),
    }
    let mut odd = vec![PointType::Int(Point::new(0, "/App/I", 1, Status::Good, Cot::Inf, ts()))];
    assert!(matches!(ApiClient::head_action(&odd), Some(ApiAction::Skip)));
    ApiClient::drop_head(&mut odd);
    assert!(odd.is_empty());
    buffer.clear();
    assert!(ApiClient::head_action(&buffer).is_none());
}

#[test]
fn api_client_reads_all_waiting_points() {
    let (send, recv) = mpsc::channel();
    for _ in 0..1500 {
        send.send(sql_point("x")).unwrap();
    }
    let mut buffer = vec![];
    ApiClient::read_queue(&recv, &mut buffer);
    assert_eq!(buffer.len(), 1500);
    assert!(recv.try_recv().is_err());
    ApiClient::read_queue(&recv, &mut buffer);
    assert_eq!(buffer.len(), 1500);
}

#[test]
fn api_query_fields() {
    let q = ApiQuery::new("123zxy456!@#".to_owned(), "123".to_owned(), true, "database name".to_owned(), "Some valid sql query".to_owned(), false);
    assert_eq!(q.sql.get("database"), Some(&"database name".to_owned()));
    assert_eq!(q.sql.get("sql"), Some(&"Some valid sql query".to_owned()));
    assert_eq!(q.sql.len(), 2);
    assert!(q.keepAlive);
}

#[test]
fn queue_names() {
    let n = QueueName::new("MultiQueue.in-queue");
    assert_eq!(n.service(), "MultiQueue");
    assert_eq!(n.queue(), "in-queue");
    let n = QueueName::new("/App/Service.queue.more");
    assert_eq!(n.service(), "/App/Service");
    assert_eq!(n.queue(), "queue");
}

#[test]
fn queues_by_name() {
    let mut q = queues::Queues::new();
    let (s, r) = mpsc::channel();
    q.addSendQueue("a", s);
    let (_s1, r1) = mpsc::channel();
    q.addRecvQueue("a", r1);
    assert!(q.recvQueues.get("a").is_none());
    let (_s2, r2) = mpsc::channel();
    q.addRecvQueue("b", r2);
    let link = q.getSendQueue("a");
    link.send(PointType::Int(Point::new(0, "/x", 1, Status::Good, Cot::Inf, ts()))).unwrap();
    assert!(r.try_recv().is_ok());
    let _rb = q.getRecvQueue("b");
    assert!(q.recvQueues.get("b").is_none());
    let mut t = text_queues::Queues::new();
    let (ts_, tr) = mpsc::channel::<String>();
    t.addSendQueue("t", ts_);
    let link = t.getSendQueue("t");
    link.send("hello".to_owned()).unwrap();
    assert_eq!(tr.recv().unwrap(), "hello");
    let (s3, r3) = mpsc::channel::<i32>();
    let mut ch = QueueSendMpscChannel::new(s3);
    assert!(ch.send(5).is_ok());
    assert_eq!(r3.recv().unwrap(), 5);
}

#[test]
fn retained_ids_are_kept() {
    let mut retain = RetainPointId::new("/App", "assets/retain_points.json");
    assert_eq!(retain.id, "/App/RetainPointId");
    assert!(!retain.is_cached());
    let mut retained: StrMap<RetainedPointConfig> = StrMap::new();
    retained.insert("/App/B".to_owned(), RetainedPointConfig { id: 4, name: "/App/B".to_owned(), type_: PointConfigType::Int });
    let points = retain.points(vec![conf("/App/A"), conf("/App/B"), conf("/App/A")], &mut retained);
    let ids: Vec<usize> = points.iter().map(|p| p.id).collect();
    assert_eq!(ids, vec![5, 4, 5]);
    assert!(retain.is_cached());
    let again = retain.points(vec![conf("/App/C")], &mut retained);
    assert_eq!(again.len(), 3);
    let mut retain2 = RetainPointId::new("/App", "assets/retain_points.json");
    let second = retain2.points(vec![conf("/App/A"), conf("/App/B"), conf("/App/A")], &mut retained);
    let ids2: Vec<usize> = second.iter().map(|p| p.id).collect();
    assert_eq!(ids2, ids);
}

#[test]
fn services_registry() {
    let mut s: Services<u8> = Services::new("/App");
    assert_eq!(s.id, "/App/Services");
    assert!(!s.contains("MultiQueue"));
    s.insert("MultiQueue".to_owned(), 1);
    assert!(s.contains("MultiQueue"));
    assert_eq!(*s.get("MultiQueue"), 1);
    let per_service = vec![
        ("/App/A".to_owned(), vec![conf("/App/A/p1")]),
        ("/App/B".to_owned(), vec![conf("/App/B/p1"), conf("/App/B/p2")]),
    ];
    let others = Services::<u8>::others_points(&per_service, "/App/A");
    let names: Vec<String> = others.iter().map(|p| p.name.clone()).collect();
    assert_eq!(names, vec!["/App/B/p1", "/App/B/p2"]);
    let mut retained: StrMap<RetainedPointConfig> = StrMap::new();
    let points = s.points(&per_service, "/App/Nobody", &mut retained);
    let ids: Vec<usize> = points.iter().map(|p| p.id).collect();
    assert_eq!(ids, vec![0, 1, 2]);
    assert_eq!(Services::<u8>::CACHE_SERVICE, "CacheService");
}

#[test]
fn filter_empty_takes_new_values() {
    let mut f = FilterEmpty::new(0i64);
    assert!(f.isChanged());
    f.add(0);
    assert!(!f.isChanged());
    f.add(3);
    assert!(f.isChanged());
    assert_eq!(f.value(), 3);
}

#[test]
fn criteria_of_a_point() {
    let c = JdsRequest::map_points_to_creteria("/App/P", vec![Cot::Inf, Cot::Act]);
    let d: Vec<String> = c.iter().map(|c| c.destination()).collect();
    assert_eq!(d, vec!["Inf//App/P", "Act//App/P"]);
    let info = ConnectionInfo::new("id", "name", "127.0.0.1");
    assert_eq!(info.connection_id, "127.0.0.1");
}

#[test]
fn retained_records_as_sql() {
    let mut retained: StrMap<RetainedPointConfig> = StrMap::new();
    retained.insert("/App/A".to_owned(), RetainedPointConfig { id: 12, name: "/App/A".to_owned(), type_: PointConfigType::Real });
    let sql = RetainPointId::sql_statements(&retained);
    assert_eq!(sql, vec![
        "truncate public.tags;".to_owned(),
        "insert into public.tags (id, type, name) values (12,'Real','/App/A');".to_owned(),
    ]);
}

#[test]
fn codes_and_names_round_trip() {
    for s in [Status::Good, Status::Obsolete, Status::TimeInvalid, Status::Invalid, Status::Unknown(77)] {
        assert_eq!(Status::from_code(s.code()), s);
    }
    assert_eq!(Status::from_code(1), Status::Unknown(1));
    for c in [Cot::Inf, Cot::Act, Cot::ActCon, Cot::ActErr, Cot::Req, Cot::ReqCon, Cot::ReqErr, Cot::Read, Cot::Write, Cot::All] {
        assert_eq!(Cot::parse(c.as_str()), Some(c));
    }
    assert_eq!(Cot::parse("inf"), None);
    assert_eq!(point_tx_id("/App/A"), point_tx_id("/App/A"));
    assert_ne!(point_tx_id("/App/A"), point_tx_id("/App/B"));
}

#[test]
fn queue_send_error_names_the_channel() {
    let (s, r) = mpsc::channel::<i32>();
    drop(r);
    let mut ch = QueueSendMpscChannel::new(s);
    let err = ch.send(7).unwrap_err();
    assert!(err.starts_with("QueueSendMpscChannel.send | send error: "), "{}", err);
    assert!(err.len() > "QueueSendMpscChannel.send | send error: ".len());
}

#[test]
fn api_take_received_pushes() {
    let p = sql_point("select 1;");
    let int = PointType::Int(Point::new(0, "/App/I", 1, Status::Good, Cot::Inf, ts()));
    let mut buffer: Vec<PointType> = Vec::new();
    assert!(ApiClient::take_received(&mut buffer, Some(p.clone())));
    assert_eq!(buffer.len(), 1);
    assert!(ApiClient::take_received(&mut buffer, Some(int)));
    assert_eq!(buffer.len(), 1);
    assert!(ApiClient::take_received(&mut buffer, Some(p.clone())));
    assert_eq!(buffer.len(), 2);
    assert!(!ApiClient::take_received(&mut buffer, None));
    assert_eq!(buffer.len(), 2);
    ApiClient::drop_head(&mut buffer);
    assert_eq!(buffer.len(), 1);
}
