use audio_sessions::events::OutboundEvent;
use audio_sessions::monitor::Monitor;
use audio_sessions::session::SessionDetails;

fn snapshot(pid: u32, uid: &str, volume: u32, muted: bool, active: bool) -> SessionDetails {
    SessionDetails {
        process_id: pid,
        session_uid: uid.to_string(),
        process_name: "app.exe".to_string(),
        session_volume: volume,
        is_muted: muted,
        is_active: active,
    }
}

#[test]
fn bootstrap_then_duplicate_created_is_noop() {
    let mut m = Monitor::new();
    let a = snapshot(10, "uidA", 800, false, true);
    let b = snapshot(20, "uidB", 200, true, false);
    assert!(m.bootstrap_registered(a.session_uid.clone(), 1, true));
    assert!(m.bootstrap_registered(b.session_uid.clone(), 2, true));
    assert_eq!(m.tracked_count(), 2);
    assert!(m.is_tracked(&"uidA".to_string()));
    assert!(m.is_tracked(&"uidB".to_string()));
    // The subsystem reports uidA again: already tracked, so nothing changes
    // and nothing is announced.
    let evt = m.process_created(snapshot(10, "uidA", 800, false, true), 3, true);
    assert!(evt.is_none());
    assert_eq!(m.tracked_count(), 2);
}

#[test]
fn created_new_session_is_tracked_and_announced() {
    let mut m = Monitor::new();
    let d = snapshot(42, "fresh", 600, false, true);
    let evt = m.process_created(d, 7, true);
    match evt {
        Some(OutboundEvent::SessionCreated(s)) => {
            assert_eq!(s.session_uid, "fresh");
            assert_eq!(s.process_id, 42);
            assert_eq!(s.session_volume, 600);
        },
        _ => panic!("expected a session-created event"),
    }
    assert!(m.is_tracked(&"fresh".to_string()));
}

#[test]
fn failed_registration_drops_the_session() {
    let mut m = Monitor::new();
    let evt = m.process_created(snapshot(5, "gone", 100, false, false), 9, false);
    assert!(evt.is_none());
    assert_eq!(m.tracked_count(), 0);
    assert!(!m.bootstrap_registered("gone".to_string(), 9, false));
    assert_eq!(m.tracked_count(), 0);
}

#[test]
fn closing_twice_is_noop() {
    let mut m = Monitor::new();
    m.bootstrap_registered("u1".to_string(), 10, true);
    let first = m.process_closed(&"u1".to_string());
    assert_eq!(first, Some(10));
    assert_eq!(m.tracked_count(), 0);
    let second = m.process_closed(&"u1".to_string());
    assert_eq!(second, None);
    assert_eq!(m.tracked_count(), 0);
}

#[test]
fn closing_untracked_session_is_noop() {
    let mut m = Monitor::new();
    m.bootstrap_registered("keep".to_string(), 4, true);
    assert_eq!(m.process_closed(&"never-seen".to_string()), None);
    assert_eq!(m.tracked_count(), 1);
    assert!(m.is_tracked(&"keep".to_string()));
}

#[test]
fn close_returns_the_handle_of_that_session() {
    let mut m = Monitor::new();
    m.bootstrap_registered("a".to_string(), 1, true);
    m.bootstrap_registered("b".to_string(), 2, true);
    m.bootstrap_registered("c".to_string(), 3, true);
    assert_eq!(m.process_closed(&"b".to_string()), Some(2));
    assert!(m.is_tracked(&"a".to_string()));
    assert!(!m.is_tracked(&"b".to_string()));
    assert!(m.is_tracked(&"c".to_string()));
}

#[test]
fn shutdown_hands_back_every_registration() {
    let mut m = Monitor::new();
    m.register_notifier(99);
    m.bootstrap_registered("a".to_string(), 1, true);
    m.bootstrap_registered("b".to_string(), 2, true);
    let (notifier, handles) = m.shutdown();
    assert_eq!(notifier, Some(99));
    assert_eq!(handles, vec![1u64, 2u64]);
    assert_eq!(m.tracked_count(), 0);
}

#[test]
fn shutdown_of_idle_monitor_is_empty() {
    let mut m = Monitor::new();
    let (notifier, handles) = m.shutdown();
    assert_eq!(notifier, None);
    assert!(handles.is_empty());
}
