use fault_recorder::point::{Bool, Cot, Point, PointType, Status};
use fault_recorder::point_config::{PointConfig, PointConfigHistory, PointConfigType};
use fault_recorder::services::cache::cache_service::CacheService;
use fault_recorder::services::cache::delay_store::DelyStore;
use fault_recorder::services::multi_queue::subscription_criteria::SubscriptionCriteria;
use std::time::Duration;

fn ts() -> chrono::NaiveDateTime {
    chrono::NaiveDate::from_ymd_opt(2024, 4, 8).unwrap().and_hms_opt(8, 52, 32).unwrap()
}

fn conf(name: &str, type_: PointConfigType) -> PointConfig {
    PointConfig { id: 0, name: name.to_owned(), type_, history: PointConfigHistory::Off, alarm: None, address: None, filters: None, comment: None }
}

fn int_point(name: &str, value: i64, cot: Cot) -> PointType {
    PointType::Int(Point::new(7, name, value, Status::Good, cot, ts()))
}

#[test]
fn cache_initial_points_by_type() {
    let mut service = CacheService::new("/App/Cache");
    assert_eq!(service.id, "/App/Cache");
    let points = vec![
        conf("/App/B", PointConfigType::Bool),
        conf("/App/I", PointConfigType::Int),
        conf("/App/J", PointConfigType::Json),
    ];
    CacheService::initial(3, &mut service.cache, &points, Status::Invalid, ts());
    let all = CacheService::gi(&service.cache, &[]);
    assert_eq!(all.len(), 3);
    match &all[0] {
        PointType::Bool(p) => {
            assert_eq!(p.value, Bool(false));
            assert_eq!(p.name, "/App/B");
            assert_eq!(p.status, Status::Invalid);
            assert_eq!(p.cot, Cot::Inf);
            assert_eq!(p.tx_id, 3);
        }
        _ => panic!("Bool point expected"),
    }
    assert!(matches!(&all[1], PointType::Int(p) if p.value == 0));
    assert!(matches!(&all[2], PointType::String(p) if p.value.is_empty()));
}

#[test]
fn cache_gi_returns_latest_point() {
    let mut service = CacheService::new("/App/Cache");
    CacheService::insert(&mut service.cache, int_point("/App/I", 1, Cot::Inf));
    CacheService::insert(&mut service.cache, int_point("/App/K", 5, Cot::Inf));
    CacheService::insert(&mut service.cache, int_point("/App/I", 2, Cot::Inf));
    let gi = CacheService::gi(&service.cache, &[SubscriptionCriteria::new("/App/I", Cot::Inf)]);
    assert_eq!(gi.len(), 1);
    assert!(matches!(&gi[0], PointType::Int(p) if p.value == 2));
    // the key keeps its first place
    let all = CacheService::gi(&service.cache, &[]);
    assert!(matches!(&all[0], PointType::Int(p) if p.value == 2 && p.name == "/App/I"));
    assert!(matches!(&all[1], PointType::Int(p) if p.value == 5));
    // an unknown destination gives nothing
    let gi = CacheService::gi(&service.cache, &[SubscriptionCriteria::new("/App/I", Cot::Act)]);
    assert!(gi.is_empty());
}

#[test]
fn cache_load_and_store_points() {
    let mut service = CacheService::new("/App/Cache");
    CacheService::load(&mut service.cache, vec![int_point("/App/A", 1, Cot::Inf), int_point("/App/A", 3, Cot::ActCon)]);
    let stored = CacheService::store_points(&service.cache, Status::Obsolete);
    assert_eq!(stored.len(), 2);
    assert!(stored.iter().all(|p| p.status() == Status::Obsolete));
    assert!(matches!(&stored[1], PointType::Int(p) if p.value == 3 && p.cot == Cot::ActCon));
    let p = CacheService::with_status(&int_point("/x", 9, Cot::Inf), Status::TimeInvalid);
    assert_eq!(p.status(), Status::TimeInvalid);
    assert_eq!(int_point("/App/A", 1, Cot::ActErr).dest(), "ActErr//App/A");
}

#[test]
fn dely_store_flags() {
    let mut d = DelyStore::new(Duration::from_secs(3600));
    assert!(!d.stored());
    d.set_stored();
    assert!(d.stored());
    assert!(!d.exceeded());
    assert!(!d.stored());
    let mut d = DelyStore::new(Duration::ZERO);
    assert!(d.exceeded());
}
