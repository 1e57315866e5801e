use audio_sessions::bridge::BridgeMessage;
use audio_sessions::bridge::NotificationBridge;
use audio_sessions::events::OutboundEvent;
use audio_sessions::listener::SessionState;
use audio_sessions::listener::on_disconnected;
use audio_sessions::listener::on_new_session;
use audio_sessions::listener::on_state_changed;
use audio_sessions::listener::on_volume_changed;
use audio_sessions::session::QueryError;
use audio_sessions::session::SessionStatePayload;
use audio_sessions::session::VolumeChangedPayload;
use audio_sessions::session::session_details_from_parts;

#[test]
fn details_take_every_field() {
    let r = session_details_from_parts(
        42,
        Some("uid-42".to_string()),
        Some("Player".to_string()),
        Some("player.exe".to_string()),
        750,
        true,
        false,
    );
    let d = r.expect("a session with an identifier is accepted");
    assert_eq!(d.process_id, 42);
    assert_eq!(d.session_uid, "uid-42");
    assert_eq!(d.process_name, "Player");
    assert_eq!(d.session_volume, 750);
    assert!(d.is_muted);
    assert!(!d.is_active);
}

#[test]
fn missing_identifier_is_rejected() {
    let none = session_details_from_parts(1, None, None, None, 0, false, false);
    assert!(matches!(none, Err(QueryError::MissingIdentifier)));
    let empty = session_details_from_parts(1, Some(String::new()), None, None, 0, false, false);
    assert!(matches!(empty, Err(QueryError::MissingIdentifier)));
}

#[test]
fn display_name_falls_back_to_process_then_unknown() {
    let fallback = session_details_from_parts(
        1,
        Some("u".to_string()),
        Some(String::new()),
        Some("proc.exe".to_string()),
        100,
        false,
        true,
    )
    .unwrap();
    assert_eq!(fallback.process_name, "proc.exe");
    let unknown = session_details_from_parts(
        1,
        Some("u".to_string()),
        None,
        None,
        100,
        false,
        true,
    )
    .unwrap();
    assert_eq!(unknown.process_name, "unknown");
}

#[test]
fn error_messages_name_the_failure() {
    assert_eq!(
        QueryError::Subsystem("no device".to_string()).message(),
        "audio subsystem unavailable: no device"
    );
    assert_eq!(
        QueryError::Enumeration("count failed".to_string()).message(),
        "session enumeration failed: count failed"
    );
    assert_eq!(QueryError::MissingIdentifier.message(), "session has no instance identifier");
}

#[test]
fn bridge_is_first_in_first_out() {
    let mut b = NotificationBridge::new();
    assert!(b.try_recv().is_none());
    b.send(BridgeMessage::SessionCreated { handle: 1 });
    b.send(BridgeMessage::SessionClosed { session_uid: "u".to_string() });
    b.send(BridgeMessage::SessionCreated { handle: 2 });
    assert_eq!(b.len(), 3);
    assert!(matches!(b.try_recv(), Some(BridgeMessage::SessionCreated { handle: 1 })));
    match b.try_recv() {
        Some(BridgeMessage::SessionClosed { session_uid }) => assert_eq!(session_uid, "u"),
        _ => panic!("expected the closed message second"),
    }
    assert!(matches!(b.try_recv(), Some(BridgeMessage::SessionCreated { handle: 2 })));
    assert!(b.try_recv().is_none());
}

#[test]
fn expired_state_announces_close_and_queues_bookkeeping() {
    let uid = "dying".to_string();
    let (event, message) = on_state_changed(&uid, SessionState::Expired);
    match event {
        Some(OutboundEvent::SessionClosed { session_uid }) => assert_eq!(session_uid, "dying"),
        _ => panic!("expected an immediate closed event"),
    }
    match message {
        Some(BridgeMessage::SessionClosed { session_uid }) => assert_eq!(session_uid, "dying"),
        _ => panic!("expected a closed message for the loop"),
    }
}

#[test]
fn state_changes_announce_without_bookkeeping() {
    let uid = "s".to_string();
    let (active, none1) = on_state_changed(&uid, SessionState::Active);
    match active {
        Some(OutboundEvent::StateChanged(SessionStatePayload { session_uid, is_active })) => {
            assert_eq!(session_uid, "s");
            assert!(is_active);
        },
        _ => panic!("expected a state-changed event"),
    }
    assert!(none1.is_none());
    let (inactive, none2) = on_state_changed(&uid, SessionState::Inactive);
    match inactive {
        Some(OutboundEvent::StateChanged(SessionStatePayload { session_uid, is_active })) => {
            assert_eq!(session_uid, "s");
            assert!(!is_active);
        },
        _ => panic!("expected a state-changed event"),
    }
    assert!(none2.is_none());
}

#[test]
fn volume_callback_becomes_volume_event() {
    let uid = "v".to_string();
    let event = on_volume_changed(&uid, 350, true);
    match event {
        OutboundEvent::VolumeChanged(VolumeChangedPayload { session_uid, volume, is_muted }) => {
            assert_eq!(session_uid, "v");
            assert_eq!(volume, 350);
            assert!(is_muted);
        },
        _ => panic!("expected a volume-changed event"),
    }
}

#[test]
fn disconnect_behaves_like_expiry() {
    let uid = "d".to_string();
    let (event, message) = on_disconnected(&uid);
    assert!(matches!(event, OutboundEvent::SessionClosed { .. }));
    assert!(matches!(message, BridgeMessage::SessionClosed { .. }));
}

#[test]
fn new_session_notification_carries_the_handle() {
    assert!(matches!(on_new_session(77), BridgeMessage::SessionCreated { handle: 77 }));
}

#[test]
fn events_are_published_under_their_names() {
    let closed = OutboundEvent::SessionClosed { session_uid: "u".to_string() };
    assert_eq!(closed.name(), "audio-session-closed");
    let inbound = OutboundEvent::InboundMessage { text: "t".to_string() };
    assert_eq!(inbound.name(), "server-message");
    let error = OutboundEvent::ServerError { message: "m".to_string() };
    assert_eq!(error.name(), "server-error");
    let state = OutboundEvent::StateChanged(SessionStatePayload {
        session_uid: "u".to_string(),
        is_active: true,
    });
    assert_eq!(state.name(), "session-state-changed");
    let volume = OutboundEvent::VolumeChanged(VolumeChangedPayload {
        session_uid: "u".to_string(),
        volume: 1,
        is_muted: false,
    });
    assert_eq!(volume.name(), "audio-session-volume-changed");
}
