use sentinel::broadcast::Broadcast;
use sentinel::model::{ContainerStatus, OnlinePeople, ServerStatus};

fn status(host: &str) -> ServerStatus {
    ServerStatus {
        host: host.to_string(),
        container: ContainerStatus::NotUp,
        online: OnlinePeople::Unknown,
    }
}

#[test]
fn an_empty_slot_has_no_news() {
    let broadcast = Broadcast::new();
    let mut subscriber = broadcast.subscribe();
    assert!(!broadcast.has_changed(&subscriber));
    assert_eq!(broadcast.current(), None);
    assert_eq!(broadcast.observe(&mut subscriber), None);
}

#[test]
fn every_subscriber_observes_what_was_published() {
    let mut broadcast = Broadcast::new();
    let mut first = broadcast.subscribe();
    let mut second = broadcast.subscribe();
    let mut third = broadcast.subscribe();
    broadcast.publish(status("pending"));
    assert!(broadcast.has_changed(&first));
    assert!(broadcast.has_changed(&second));
    assert!(broadcast.has_changed(&third));
    assert_eq!(broadcast.observe(&mut first), Some(status("pending")));
    assert_eq!(broadcast.observe(&mut second), Some(status("pending")));
    assert!(!broadcast.has_changed(&first));
    assert!(!broadcast.has_changed(&second));
    assert!(broadcast.has_changed(&third));
    assert_eq!(broadcast.observe(&mut third), Some(status("pending")));
}

#[test]
fn a_slow_subscriber_skips_to_the_latest() {
    let mut broadcast = Broadcast::new();
    let mut quick = broadcast.subscribe();
    let mut slow = broadcast.subscribe();
    broadcast.publish(status("pending"));
    assert_eq!(broadcast.observe(&mut quick), Some(status("pending")));
    broadcast.publish(status("running"));
    assert_eq!(broadcast.observe(&mut quick), Some(status("running")));
    broadcast.publish(status("stopping"));
    assert!(broadcast.has_changed(&slow));
    assert_eq!(broadcast.observe(&mut slow), Some(status("stopping")));
    assert!(!broadcast.has_changed(&slow));
    assert_eq!(broadcast.observe(&mut quick), Some(status("stopping")));
}

#[test]
fn the_same_value_published_again_is_news() {
    let mut broadcast = Broadcast::new();
    let mut subscriber = broadcast.subscribe();
    broadcast.publish(status("running"));
    assert_eq!(broadcast.observe(&mut subscriber), Some(status("running")));
    assert!(!broadcast.has_changed(&subscriber));
    broadcast.publish(status("running"));
    assert!(broadcast.has_changed(&subscriber));
}

#[test]
fn a_late_subscriber_gets_the_current_value_at_once() {
    let mut broadcast = Broadcast::new();
    broadcast.publish(status("running"));
    let mut late = broadcast.subscribe();
    assert!(broadcast.has_changed(&late));
    assert_eq!(broadcast.observe(&mut late), Some(status("running")));
    assert!(!broadcast.has_changed(&late));
}

#[test]
fn current_leaves_the_subscriber_alone() {
    let mut broadcast = Broadcast::new();
    let subscriber = broadcast.subscribe();
    broadcast.publish(status("running"));
    assert_eq!(broadcast.current(), Some(status("running")));
    assert!(broadcast.has_changed(&subscriber));
}
