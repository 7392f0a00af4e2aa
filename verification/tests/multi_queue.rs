use fault_recorder::point::{Bool, Cot, Point, PointType, Status};
use fault_recorder::services::multi_queue::multi_queue::MultiQueue;
use fault_recorder::services::multi_queue::subscription_criteria::SubscriptionCriteria;
use fault_recorder::services::multi_queue::subscriptions::Subscriptions;
use std::sync::mpsc;

fn ts() -> chrono::NaiveDateTime {
    chrono::NaiveDate::from_ymd_opt(2024, 4, 8).unwrap().and_hms_opt(8, 52, 32).unwrap()
}

fn bool_point(tx_id: usize, name: &str, cot: Cot) -> PointType {
    PointType::Bool(Point::new(tx_id, name, Bool(true), Status::Good, cot, ts()))
}

#[test]
fn subscription_criteria_destination() {
    let c = SubscriptionCriteria::new("/App/Dev/Point", Cot::Inf);
    assert_eq!(c.destination(), "Inf//App/Dev/Point");
    assert_eq!(SubscriptionCriteria::dest(&Cot::ActErr, "/a"), "ActErr//a");
}

#[test]
fn subscriptions_iter_multicast_then_broadcast() {
    let mut subs: Subscriptions<u32> = Subscriptions::new("/App");
    subs.add_multicast(1, "Inf/x", 10);
    subs.add_broadcast(2, 20);
    subs.add_multicast(3, "Inf/x", 30);
    let t: Vec<(usize, u32)> = subs.iter("Inf/x").into_iter().map(|(r, s)| (r, *s)).collect();
    assert_eq!(t, vec![(1, 10), (3, 30), (2, 20)]);
    let t: Vec<(usize, u32)> = subs.iter("Inf/y").into_iter().map(|(r, s)| (r, *s)).collect();
    assert_eq!(t, vec![(2, 20)]);
}

#[test]
fn subscriptions_remove_and_remove_all() {
    let mut subs: Subscriptions<u32> = Subscriptions::new("/App");
    subs.add_multicast(1, "Inf/x", 10);
    subs.add_multicast(1, "Inf/y", 11);
    assert!(subs.remove(&1, "Inf/x").is_ok());
    assert_eq!(subs.remove(&1, "Inf/x"), Err("/App/Subscriptions.run | Subscription 'Inf/x', receiver '1' - not found".to_owned()));
    assert_eq!(subs.remove(&1, "Inf/z"), Err("/App/Subscriptions.run | Subscription 'Inf/z' - not found".to_owned()));
    assert!(subs.remove_all(&1).is_ok());
    assert!(subs.iter("Inf/y").is_empty());
    let err = subs.remove_all(&1).unwrap_err();
    assert_eq!(err, "/App/Subscriptions.run | Multicast Subscription 'Inf/x', receiver '1' - not found\n/App/Subscriptions.run | Multicast Subscription 'Inf/y', receiver '1' - not found\n/App/Subscriptions.run | Broadcast Subscription by receiver '1' - not found");
}

#[test]
fn multi_queue_dispatch_skips_producer() {
    let mut mq = MultiQueue::new("/App", "in-queue", vec![]);
    assert_eq!(mq.id, "/App/MultiQueue");
    let points = vec![SubscriptionCriteria::new("/App/Dev/Point", Cot::Inf)];
    let (_s1, r1) = mq.subscribe("/App/Receiver1", &points);
    let (_s2, r2) = mq.subscribe("/App/Receiver2", &[]);
    assert!(mq.subscriptions_changed);
    // a point produced by Receiver2 goes to Receiver1 only
    let producer = mq.receiver_dictionary.entries()[1].0;
    let point = bool_point(producer, "/App/Dev/Point", Cot::Inf);
    let sent = MultiQueue::dispatch(&mq.subscriptions, &point);
    assert_eq!(sent.len(), 1);
    assert!(!sent.contains(&producer));
    assert!(r1.try_recv().is_ok());
    assert!(r2.try_recv().is_err());
    // a point of another destination goes to the broadcast receiver only
    let other = bool_point(0, "/App/Dev/Other", Cot::Inf);
    let sent = MultiQueue::dispatch(&mq.subscriptions, &other);
    assert_eq!(sent, vec![producer]);
    assert!(r2.try_recv().is_ok());
    assert!(r1.try_recv().is_err());
}

#[test]
fn multi_queue_extend_and_unsubscribe() {
    let mut mq = MultiQueue::new("/App", "in-queue", vec![]);
    // a broadcast subscription cannot be extended
    assert!(mq.extend_subscription("/App/R", &[]).is_err());
    // a receiver without a subscription cannot be extended
    let more = vec![SubscriptionCriteria::new("/App/Dev/B", Cot::Inf)];
    assert!(mq.extend_subscription("/App/R", &more).is_err());
    let first = vec![SubscriptionCriteria::new("/App/Dev/A", Cot::Inf)];
    let (_s, r) = mq.subscribe("/App/R", &first);
    assert!(mq.extend_subscription("/App/R", &more).is_ok());
    let sent = MultiQueue::dispatch(&mq.subscriptions, &bool_point(0, "/App/Dev/B", Cot::Inf));
    assert_eq!(sent.len(), 1);
    assert!(r.try_recv().is_ok());
    assert!(mq.unsubscribe("/App/R", &more).is_ok());
    assert!(mq.unsubscribe("/App/R", &more).is_err());
    assert!(mq.unsubscribe("/App/R", &[]).is_ok());
    assert!(mq.unsubscribe("/App/R", &[]).is_err());
    let sent = MultiQueue::dispatch(&mq.subscriptions, &bool_point(0, "/App/Dev/A", Cot::Inf));
    assert!(sent.is_empty());
}

#[test]
fn multi_queue_send_queue_gets_every_point() {
    let mut mq = MultiQueue::new("/App", "in-queue", vec!["Task.recv-queue".to_owned()]);
    let (send, recv) = mpsc::channel();
    mq.subscribe_send_queue("Task.recv-queue", send);
    let sent = MultiQueue::dispatch(&mq.subscriptions, &bool_point(0, "/App/Any", Cot::Act));
    assert_eq!(sent.len(), 1);
    assert!(recv.try_recv().is_ok());
    let link = mq.get_link("in-queue");
    assert!(link.send(bool_point(0, "/x", Cot::Inf)).is_ok());
    assert!(mq.rx_recv[0].try_recv().is_ok());
}
