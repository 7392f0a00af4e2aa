use fault_recorder::error_limit::ErrorLimit;
use fault_recorder::point::{Bool, Cot, Point, PointType, Status};
use fault_recorder::point_config::{PointConfig, PointConfigAddress, PointConfigHistory, PointConfigType};
use fault_recorder::services::device::act_criteria;
use fault_recorder::services::diagnosis::diag_point::{DiagKeywd, DiagPoint};
use fault_recorder::services::profinet_client::parse_point::ParsePoint;
use fault_recorder::services::profinet_client::profinet_client::ProfinetClient;
use fault_recorder::services::profinet_client::profinet_db::ProfinetDb;
use fault_recorder::services::profinet_client::s7::filter::{Filter, FilterEmpty};
use fault_recorder::services::profinet_client::s7::s7_parse_bool::S7ParseBool;
use fault_recorder::services::profinet_client::s7::s7_parse_int::S7ParseInt;
use fault_recorder::services::slmp_client::slmp_client::SlmpClient;
use fault_recorder::services::slmp_client::slmp_read::{enabled_cycle, SlmpRead};
use fault_recorder::services::slmp_client::slmp_write::SlmpWrite;
use fault_recorder::text::nth_segment;
use fault_recorder::services::write_reply::{db_name_of, reply_point, write_step, WriteStep};
use std::sync::mpsc;

fn ts() -> chrono::NaiveDateTime {
    chrono::NaiveDate::from_ymd_opt(2024, 4, 8).unwrap().and_hms_opt(8, 52, 32).unwrap()
}

fn conf(name: &str, type_: PointConfigType, offset: Option<u32>, bit: Option<u8>) -> PointConfig {
    PointConfig {
        id: 0,
        name: name.to_owned(),
        type_,
        history: PointConfigHistory::Off,
        alarm: None,
        address: Some(PointConfigAddress { offset, bit }),
        filters: None,
        comment: None,
    }
}

#[test]
fn s7_bool_point_reports_changes_once() {
    let c = conf("/App/Db/Bit", PointConfigType::Bool, Some(0), Some(9));
    let mut p = S7ParseBool::new(1, "/App/Db/Bit".to_owned(), &c);
    assert!(p.is_ready());
    assert!(p.fits_len(2));
    assert!(!p.fits_len(1));
    // bit 9 of the big-endian word is bit 1 of the low (second) byte
    let bytes = [0u8, 0b10];
    let first = p.next(&bytes, ts());
    assert!(matches!(first, Some(PointType::Bool(q)) if q.value == Bool(true) && q.status == Status::Good));
    assert!(p.next(&bytes, ts()).is_none());
    let second = p.next(&[0u8, 0], ts());
    assert!(matches!(second, Some(PointType::Bool(q)) if q.value == Bool(false)));
    let status = p.next_status(Status::Invalid);
    assert!(matches!(status, Some(PointType::Bool(q)) if q.status == Status::Invalid));
    assert!(p.next_status(Status::Invalid).is_none());
}

#[test]
fn s7_int_point_reads_big_endian() {
    let c = conf("/App/Db/Int", PointConfigType::Int, Some(2), None);
    let mut p = S7ParseInt::new(1, "/App/Db/Int".to_owned(), &c, FilterEmpty::new(0i64));
    let bytes = [0u8, 0, 0xff, 0xfe];
    let first = p.next(&bytes, ts());
    assert!(matches!(first, Some(PointType::Int(q)) if q.value == -2));
    assert!(p.next(&bytes, ts()).is_none());
    assert_eq!(p.value.value(), -2);
}

#[test]
fn profinet_db_parse_and_write() {
    let cb = conf("/App/Dev/Db1/Bit", PointConfigType::Bool, Some(0), Some(0));
    let ci = conf("/App/Dev/Db1/Int", PointConfigType::Int, Some(2), None);
    let points: Vec<(String, S7ParseInt<FilterEmpty<i64>>)> = vec![
        ("/App/Dev/Db1/Int".to_owned(), S7ParseInt::new(1, "/App/Dev/Db1/Int".to_owned(), &ci, FilterEmpty::new(0i64))),
    ];
    let mut db = ProfinetDb::new("/App/Dev", "Db1".to_owned(), String::new(), 5, 0, 4, None, points);
    assert_eq!(db.id, "/App/Dev/ProfinetDb(Db1)");
    assert!(db.fits_len(4));
    assert!(!db.fits_len(3));
    let got = db.parse(&[0, 0, 0, 7], ts());
    assert_eq!(got.len(), 1);
    assert!(matches!(&got[0], PointType::Int(q) if q.value == 7));
    assert!(db.parse(&[0, 0, 0, 7], ts()).is_empty());
    let write = PointType::Int(Point::new(0, "/App/Dev/Db1/Int", 0x0102, Status::Good, Cot::Act, ts()));
    assert_eq!(db.write_request(&write), Ok((2, 2, vec![0, 0, 0, 0, 0, 0, 1, 2])));
    let missing = PointType::Int(Point::new(0, "/App/Dev/Db1/Other", 1, Status::Good, Cot::Act, ts()));
    assert_eq!(db.write_request(&missing), Err(String::new()));
    let b = PointType::Bool(Point::new(0, "/App/Dev/Db1/Int", Bool(true), Status::Good, Cot::Act, ts()));
    assert_eq!(db.write_request(&b), Err("/App/Dev/ProfinetDb(Db1).write | Write 'Bool' to the S7 Device - not implemented, point: \"/App/Dev/Db1/Int\"".to_owned()));
    let mut dbs = vec![("Db1".to_owned(), db)];
    let invalid = ProfinetClient::yield_status(&mut dbs);
    assert_eq!(invalid.len(), 1);
    assert_eq!(invalid[0].status(), Status::Invalid);
    let _ = cb;
}

#[test]
fn device_diagnosis_points() {
    let diag = vec![(DiagKeywd::Status, conf("/App/Dev/Status", PointConfigType::Int, None, None))];
    let mut client = ProfinetClient::new("/App/Dev", diag);
    assert_eq!(client.id, "/App/Dev");
    let p = client.yield_diagnosis(DiagKeywd::Status, Status::Good);
    assert!(matches!(p, Some(PointType::Int(q)) if q.value == 0 && q.name == "/App/Dev/Status" && q.cot == Cot::Inf));
    assert!(client.yield_diagnosis(DiagKeywd::Status, Status::Good).is_none());
    let p = client.yield_diagnosis(DiagKeywd::Status, Status::Invalid);
    assert!(matches!(p, Some(PointType::Int(q)) if q.value == 10));
    assert!(client.yield_diagnosis(DiagKeywd::Connection, Status::Invalid).is_none());
    let mut slmp = SlmpClient::new("/App/Plc", vec![(DiagKeywd::Connection, conf("/App/Plc/Connection", PointConfigType::Int, None, None))]);
    assert_eq!(slmp.tx_id, ProfinetClient::new("/App/Plc", vec![]).tx_id);
    assert!(slmp.yield_diagnosis(DiagKeywd::Connection, Status::Obsolete).is_some());
    let mut d = DiagPoint::new(1, conf("/x", PointConfigType::Int, None, None));
    assert!(d.next(Status::Unknown(-1)).is_none());
    assert!(d.next(Status::Good).is_some());
}

#[test]
fn write_steps_count_errors() {
    let point = PointType::Int(Point::new(0, "/App/Dev/Db1/Int", 5, Status::Good, Cot::Act, ts()));
    let mut errors = ErrorLimit::new(1);
    assert!(matches!(write_step(&mut errors, 2, point.clone(), Err("e".to_owned()), ts()), WriteStep::Failed));
    match write_step(&mut errors, 2, point.clone(), Err("timeout".to_owned()), ts()) {
        WriteStep::Reconnect(PointType::String(p)) => {
            assert_eq!(p.value, "Write error: timeout");
            assert_eq!(p.name, "/App/Dev/Db1/Int");
            assert_eq!(p.cot, Cot::ActErr);
        }
        _ => panic!("reconnect expected"),
    }
    match write_step(&mut errors, 2, point.clone(), Ok(()), ts()) {
        WriteStep::Confirmed(PointType::Int(p)) => {
            assert_eq!(p.value, 5);
            assert_eq!(p.cot, Cot::ActCon);
            assert_eq!(p.tx_id, 2);
        }
        _ => panic!("confirmation expected"),
    }
    assert_eq!(errors.errors, 0);
    assert!(matches!(reply_point(3, point, ts()), PointType::Int(p) if p.status == Status::Good && p.cot == Cot::ActCon));
}

#[test]
fn error_limit_allows_limit_errors() {
    let mut e = ErrorLimit::new(3);
    assert!(e.add().is_ok());
    assert!(e.add().is_ok());
    assert!(e.add().is_ok());
    assert!(e.add().is_err());
    e.reset();
    assert!(e.add().is_ok());
}

#[test]
fn db_name_is_the_fourth_part() {
    assert_eq!(db_name_of("/App/Dev/Db1/Point"), "Db1");
    assert_eq!(db_name_of("/App/Dev/Db1"), "Db1");
    assert_eq!(db_name_of("a/b/c/d/e"), "d");
    assert_eq!(nth_segment("/App/Dev", '/', 3), None);
}

#[test]
fn slmp_sides() {
    assert_eq!(enabled_cycle(Some(0)), None);
    assert_eq!(enabled_cycle(Some(100)), Some(100));
    assert_eq!(enabled_cycle(None), None);
    let w = SlmpWrite::new("/App/Plc", 4, Some(10));
    assert_eq!(w.id, "/App/Plc/SlmpWrite");
    let (send, recv) = mpsc::channel();
    let ci = conf("/App/Plc/Db/Int", PointConfigType::Int, Some(0), None);
    let points = vec![("/App/Plc/Db/Int".to_owned(), S7ParseInt::new(1, "/App/Plc/Db/Int".to_owned(), &ci, FilterEmpty::new(0i64)))];
    let db = ProfinetDb::new("/App/Plc", "Db".to_owned(), String::new(), 1, 0, 2, None, points);
    let mut r = SlmpRead::new("/App/Plc", Some(10), send, vec![("Db".to_owned(), db)]);
    assert_eq!(r.id, "/App/Plc/SlmpRead");
    let sent = r.yield_status(Status::Good);
    assert_eq!(sent.len(), 1);
    assert!(recv.try_recv().is_ok());
    let c = act_criteria(&vec![ci]);
    assert_eq!(c[0].destination(), "Act//App/Plc/Db/Int");
}
