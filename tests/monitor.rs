use clippy_history::history::History;
use clippy_history::monitor::{
    ClipboardMonitor, Delivery, DeliveryStep, FailureStreak, MonitorAction, ServerAction,
    ServerMonitor,
};
use clippy_history::protocol::{handle_command, Command};

#[test]
fn new_text_is_published_once() {
    let mut m = ClipboardMonitor::new();
    let mut h = History::new();
    assert_eq!(m.on_read(&mut h, Some("copied".to_string())), MonitorAction::Publish);
    assert_eq!(m.on_read(&mut h, Some("copied".to_string())), MonitorAction::Idle);
    assert_eq!(m.on_read(&mut h, Some("  ".to_string())), MonitorAction::Idle);
    assert_eq!(h.snapshot(), vec!["copied".to_string()]);
}

#[test]
fn third_failed_read_aborts() {
    let mut m = ClipboardMonitor::new();
    let mut h = History::new();
    assert_eq!(m.on_read(&mut h, None), MonitorAction::Recover);
    assert_eq!(m.on_read(&mut h, None), MonitorAction::Recover);
    assert_eq!(m.failures(), 2);
    assert_eq!(m.on_read(&mut h, None), MonitorAction::Abort);
}

#[test]
fn successful_read_ends_failure_run() {
    let mut m = ClipboardMonitor::new();
    let mut h = History::new();
    assert_eq!(m.on_read(&mut h, None), MonitorAction::Recover);
    assert_eq!(m.on_read(&mut h, None), MonitorAction::Recover);
    assert_eq!(m.on_read(&mut h, Some("ok".to_string())), MonitorAction::Publish);
    assert_eq!(m.failures(), 0);
    assert_eq!(m.on_read(&mut h, None), MonitorAction::Recover);
    assert_eq!(m.on_read(&mut h, None), MonitorAction::Recover);
    assert_eq!(m.on_read(&mut h, None), MonitorAction::Abort);
    assert_eq!(h.len(), 1);
}

#[test]
fn insert_survives_unreachable_push() {
    let mut m = ClipboardMonitor::new();
    let mut h = History::new();
    // The push that the action asks for finds nobody listening; the history
    // is unaffected and a later fetch still sees the entry.
    assert_eq!(m.on_read(&mut h, Some("entry".to_string())), MonitorAction::Publish);
    let reply = handle_command(&mut h, Command::GetHistory);
    assert_eq!(reply.body, "[\"entry\"]");
}

#[test]
fn fifth_failed_connection_aborts() {
    let mut s = ServerMonitor::new();
    for _ in 0..4 {
        assert_eq!(s.on_connection(false), ServerAction::Backoff);
    }
    assert_eq!(s.on_connection(false), ServerAction::Abort);
}

#[test]
fn handled_connection_ends_failure_run() {
    let mut s = ServerMonitor::new();
    for _ in 0..4 {
        assert_eq!(s.on_connection(false), ServerAction::Backoff);
    }
    assert_eq!(s.on_connection(true), ServerAction::Continue);
    for _ in 0..4 {
        assert_eq!(s.on_connection(false), ServerAction::Backoff);
    }
    assert_eq!(s.on_connection(false), ServerAction::Abort);
}

#[test]
fn delivery_gives_up_after_five_attempts() {
    let mut d = Delivery::new();
    for _ in 0..4 {
        assert_eq!(d.on_attempt(false), DeliveryStep::Retry);
    }
    assert_eq!(d.on_attempt(false), DeliveryStep::GiveUp);
    let mut d = Delivery::new();
    assert_eq!(d.on_attempt(false), DeliveryStep::Retry);
    assert_eq!(d.on_attempt(true), DeliveryStep::Delivered);
}

#[test]
fn failure_streak_counts_to_its_limit() {
    let mut f = FailureStreak::new(2);
    assert!(!f.record_failure());
    assert_eq!(f.failures(), 1);
    assert!(f.record_failure());
    assert_eq!(f.failures(), 2);
    f.record_success();
    assert_eq!(f.failures(), 0);
}
