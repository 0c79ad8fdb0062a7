use soundboard::broadcast::{
    lock_frame, FrameAction, InboundFrame, Subscriber, SubscriberBroadcast, CLIENT_TIMEOUT_MS,
    HEARTBEAT_INTERVAL_MS, LOCKED_FRAME, PING_TEXT, UNLOCKED_FRAME,
};
use soundboard::lock::messages::LockStatus;
use soundboard::models::Sound;

fn locked() -> LockStatus {
    LockStatus { is_locked: true, sound: Some(Sound::with_identity("1".to_string(), "A".to_string())) }
}

#[test]
fn frames_are_the_two_fixed_shapes() {
    assert_eq!(lock_frame(true), "{\"isLocked\": true}");
    assert_eq!(lock_frame(false), "{\"isLocked\": false}");
    assert_eq!(LOCKED_FRAME, "{\"isLocked\": true}");
    assert_eq!(UNLOCKED_FRAME, "{\"isLocked\": false}");
}

#[test]
fn timing_constants() {
    assert_eq!(HEARTBEAT_INTERVAL_MS, 5000);
    assert_eq!(CLIENT_TIMEOUT_MS, 10000);
}

#[test]
fn connect_while_locked_sends_locked_frame_at_once() {
    let mut reg = SubscriberBroadcast::new();
    let d = reg.connect(0, &locked()).unwrap();
    assert_eq!(d.frame, "{\"isLocked\": true}");
    assert_eq!(reg.len(), 1);
    assert_eq!(reg.subscribers()[0], Subscriber { id: d.subscriber, heartbeat_ts: 0 });
}

#[test]
fn connect_while_unlocked_sends_unlocked_frame() {
    let mut reg = SubscriberBroadcast::new();
    let d = reg.connect(0, &LockStatus::new()).unwrap();
    assert_eq!(d.frame, "{\"isLocked\": false}");
}

#[test]
fn connections_get_distinct_identities() {
    let mut reg = SubscriberBroadcast::new();
    let a = reg.connect(0, &LockStatus::new()).unwrap();
    let b = reg.connect(0, &LockStatus::new()).unwrap();
    let c = reg.connect(0, &LockStatus::new()).unwrap();
    assert_ne!(a.subscriber, b.subscriber);
    assert_ne!(b.subscriber, c.subscriber);
    assert_ne!(a.subscriber, c.subscriber);
}

#[test]
fn fan_out_reaches_every_subscriber_once() {
    let mut reg = SubscriberBroadcast::new();
    let a = reg.connect(0, &LockStatus::new()).unwrap().subscriber;
    let b = reg.connect(0, &LockStatus::new()).unwrap().subscriber;
    let out = reg.fan_out(true);
    assert_eq!(out.len(), 2);
    assert_eq!(out[0].subscriber, a);
    assert_eq!(out[1].subscriber, b);
    assert!(out.iter().all(|d| d.frame == LOCKED_FRAME));
}

#[test]
fn fan_out_with_nobody_sends_nothing() {
    let reg = SubscriberBroadcast::new();
    assert!(reg.fan_out(false).is_empty());
}

#[test]
fn silent_subscriber_dropped_others_kept() {
    let mut reg = SubscriberBroadcast::new();
    let quiet = reg.connect(0, &LockStatus::new()).unwrap().subscriber;
    let lively = reg.connect(0, &LockStatus::new()).unwrap().subscriber;
    assert!(reg.record_pong(lively, 8000));
    let first = reg.heartbeat(5000);
    assert!(first.dropped.is_empty());
    assert_eq!(first.pinged, vec![quiet, lively]);
    let second = reg.heartbeat(10001);
    assert_eq!(second.dropped, vec![quiet]);
    assert_eq!(second.pinged, vec![lively]);
    let out = reg.fan_out(false);
    assert_eq!(out.len(), 1);
    assert_eq!(out[0].subscriber, lively);
    assert_eq!(out[0].frame, UNLOCKED_FRAME);
}

#[test]
fn exactly_the_timeout_is_not_yet_silent() {
    let mut reg = SubscriberBroadcast::new();
    reg.connect(1000, &LockStatus::new()).unwrap();
    let out = reg.heartbeat(11000);
    assert!(out.dropped.is_empty());
    assert_eq!(reg.len(), 1);
    let out = reg.heartbeat(11001);
    assert_eq!(out.dropped.len(), 1);
    assert_eq!(reg.len(), 0);
}

#[test]
fn clock_before_last_pong_counts_as_no_time() {
    let mut reg = SubscriberBroadcast::new();
    reg.connect(50000, &LockStatus::new()).unwrap();
    let out = reg.heartbeat(0);
    assert!(out.dropped.is_empty());
    assert_eq!(out.pinged.len(), 1);
}

#[test]
fn pong_for_unknown_subscriber_changes_nothing() {
    let mut reg = SubscriberBroadcast::new();
    let a = reg.connect(0, &LockStatus::new()).unwrap().subscriber;
    assert!(!reg.record_pong(a + 100, 9000));
    assert_eq!(reg.subscribers()[0].heartbeat_ts, 0);
}

#[test]
fn disconnect_removes_only_that_subscriber() {
    let mut reg = SubscriberBroadcast::new();
    let a = reg.connect(0, &LockStatus::new()).unwrap().subscriber;
    let b = reg.connect(0, &LockStatus::new()).unwrap().subscriber;
    assert!(reg.disconnect(a));
    assert!(!reg.disconnect(a));
    assert_eq!(reg.len(), 1);
    assert_eq!(reg.subscribers()[0].id, b);
}

#[test]
fn protocol_ping_is_answered_with_same_bytes() {
    let mut reg = SubscriberBroadcast::new();
    let a = reg.connect(0, &LockStatus::new()).unwrap().subscriber;
    let act = reg.on_frame(a, InboundFrame::Ping(vec![1, 2, 3]), 10);
    assert_eq!(act, FrameAction::Pong(vec![1, 2, 3]));
}

#[test]
fn text_ping_is_answered_with_empty_pong() {
    let mut reg = SubscriberBroadcast::new();
    let a = reg.connect(0, &LockStatus::new()).unwrap().subscriber;
    assert_eq!(PING_TEXT, "{\"type\":\"PING\"}");
    let act = reg.on_frame(a, InboundFrame::Text("{\"type\":\"PING\"}".to_string()), 10);
    assert_eq!(act, FrameAction::Pong(Vec::new()));
}

#[test]
fn other_text_is_ignored() {
    let mut reg = SubscriberBroadcast::new();
    let a = reg.connect(0, &LockStatus::new()).unwrap().subscriber;
    let act = reg.on_frame(a, InboundFrame::Text("{ \"type\": \"PING\" }".to_string()), 10);
    assert_eq!(act, FrameAction::Ignore);
    assert_eq!(reg.len(), 1);
}

#[test]
fn pong_frame_refreshes_the_heartbeat() {
    let mut reg = SubscriberBroadcast::new();
    let a = reg.connect(0, &LockStatus::new()).unwrap().subscriber;
    assert_eq!(reg.on_frame(a, InboundFrame::Pong, 9000), FrameAction::Ignore);
    assert_eq!(reg.subscribers()[0].heartbeat_ts, 9000);
    assert!(reg.heartbeat(15000).dropped.is_empty());
}

#[test]
fn close_and_other_frames_end_the_connection() {
    let mut reg = SubscriberBroadcast::new();
    let a = reg.connect(0, &LockStatus::new()).unwrap().subscriber;
    let b = reg.connect(0, &LockStatus::new()).unwrap().subscriber;
    assert_eq!(reg.on_frame(a, InboundFrame::Close, 1), FrameAction::Close);
    assert_eq!(reg.len(), 1);
    assert_eq!(reg.on_frame(b, InboundFrame::Other, 1), FrameAction::Stop);
    assert_eq!(reg.len(), 0);
}
