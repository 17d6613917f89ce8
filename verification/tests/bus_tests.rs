use wraut::bus::{BusItem, ServiceBroadcast, ServiceEvent};
use wraut::status::ServiceStatus;

fn update(id: i64, status: ServiceStatus) -> ServiceEvent {
    ServiceEvent::ServiceUpdate { id, status }
}

#[test]
fn new_subscriber_gets_connect_snapshot_first_without_activity() {
    let bus = ServiceBroadcast::new();
    let mut sub = bus.subscribe();
    assert_eq!(bus.recv(&mut sub), Some(BusItem::Connected));
    assert_eq!(bus.recv(&mut sub), None);
}

#[test]
fn connect_snapshot_precedes_earlier_and_later_events() {
    let mut bus = ServiceBroadcast::new();
    bus.publish(update(1, ServiceStatus::DeploymentRequested));
    let mut sub = bus.subscribe();
    bus.publish(update(1, ServiceStatus::Cloning));
    // the snapshot comes first ...
    assert_eq!(bus.recv(&mut sub), Some(BusItem::Connected));
    // ... then only what was published after subscription
    assert_eq!(
        bus.recv(&mut sub),
        Some(BusItem::Event { event: update(1, ServiceStatus::Cloning), skipped: 0 })
    );
    assert_eq!(bus.recv(&mut sub), None);
}

#[test]
fn events_arrive_in_publish_order() {
    let mut bus = ServiceBroadcast::new();
    let mut sub = bus.subscribe();
    assert_eq!(bus.recv(&mut sub), Some(BusItem::Connected));
    bus.publish(update(1, ServiceStatus::DeploymentRequested));
    bus.publish(update(1, ServiceStatus::Cloning));
    bus.publish(ServiceEvent::AllStatus);
    let mut got = Vec::new();
    while let Some(item) = bus.recv(&mut sub) {
        match item {
            BusItem::Event { event, skipped } => {
                assert_eq!(skipped, 0);
                got.push(event);
            }
            BusItem::Connected => panic!("connect snapshot delivered twice"),
        }
    }
    assert_eq!(
        got,
        vec![
            update(1, ServiceStatus::DeploymentRequested),
            update(1, ServiceStatus::Cloning),
            ServiceEvent::AllStatus,
        ]
    );
}

#[test]
fn publish_without_subscribers_is_best_effort() {
    let mut bus = ServiceBroadcast::new();
    // nothing to deliver to; nothing fails
    bus.publish(ServiceEvent::AllStatus);
    bus.publish(ServiceEvent::UnknownEvent { msg: "x".to_string() });
}

#[test]
fn slow_subscriber_sees_gap_but_stays_in_order() {
    let mut bus = ServiceBroadcast::with_capacity(2);
    let mut sub = bus.subscribe();
    assert_eq!(bus.recv(&mut sub), Some(BusItem::Connected));
    for k in 0..5 {
        bus.publish(update(k, ServiceStatus::DeploymentRequested));
    }
    // five were published; the subscriber can still reach only the last two
    let mut ids = Vec::new();
    let mut skipped_total = 0;
    while let Some(item) = bus.recv(&mut sub) {
        match item {
            BusItem::Event { event, skipped } => {
                skipped_total += skipped;
                match event {
                    ServiceEvent::ServiceUpdate { id, .. } => ids.push(id),
                    _ => panic!("unexpected event kind"),
                }
            }
            BusItem::Connected => panic!("connect snapshot delivered twice"),
        }
    }
    // a gap: fewer events received than were published
    assert_eq!(ids, vec![3, 4]);
    assert_eq!(skipped_total, 3);
    // and never out of publish order
    for pair in ids.windows(2) {
        assert!(pair[0] < pair[1]);
    }
}

#[test]
fn fast_subscriber_loses_nothing() {
    let mut bus = ServiceBroadcast::with_capacity(2);
    let mut sub = bus.subscribe();
    assert_eq!(bus.recv(&mut sub), Some(BusItem::Connected));
    for k in 0..5 {
        bus.publish(update(k, ServiceStatus::DeploymentRequested));
        match bus.recv(&mut sub) {
            Some(BusItem::Event { event, skipped }) => {
                assert_eq!(skipped, 0);
                assert_eq!(event, update(k, ServiceStatus::DeploymentRequested));
            }
            other => panic!("expected an event, got {:?}", other),
        }
    }
}

#[test]
fn subscribers_are_independent() {
    let mut bus = ServiceBroadcast::new();
    let mut early = bus.subscribe();
    bus.publish(ServiceEvent::AllStatus);
    let mut late = bus.subscribe();
    assert_eq!(bus.recv(&mut early), Some(BusItem::Connected));
    assert_eq!(
        bus.recv(&mut early),
        Some(BusItem::Event { event: ServiceEvent::AllStatus, skipped: 0 })
    );
    // the late subscriber never sees events from before it subscribed
    assert_eq!(bus.recv(&mut late), Some(BusItem::Connected));
    assert_eq!(bus.recv(&mut late), None);
}
