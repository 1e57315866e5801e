use audio_sessions::events::ExtensionCommand;
use audio_sessions::events::OutboundEvent;
use audio_sessions::events::set_tab_mute;
use audio_sessions::events::set_tab_volume;
use audio_sessions::gateway::ConnAction;
use audio_sessions::gateway::ConnectionGateway;
use audio_sessions::gateway::FrameEvent;
use audio_sessions::gateway::accept_failure_event;
use audio_sessions::gateway::ack_message;
use audio_sessions::gateway::connection_step;
use audio_sessions::gateway::serve_connection;

#[test]
fn data_frame_gets_exactly_one_echo() {
    let action = connection_step(false, Some(FrameEvent::Data("hello".to_string())));
    match action {
        ConnAction::RelayAndEcho { relay, reply } => {
            match relay {
                OutboundEvent::InboundMessage { text } => assert_eq!(text, "hello"),
                _ => panic!("expected the inbound text to be relayed"),
            }
            assert_eq!(reply, "ack");
        },
        _ => panic!("expected a relay-and-echo action"),
    }
}

#[test]
fn shutdown_outranks_pending_data() {
    let action = connection_step(true, Some(FrameEvent::Data("late".to_string())));
    assert!(matches!(action, ConnAction::CloseAndStop));
    let idle = connection_step(true, None);
    assert!(matches!(idle, ConnAction::CloseAndStop));
}

#[test]
fn close_frame_is_answered_and_ends_the_task() {
    let action = connection_step(false, Some(FrameEvent::Close));
    assert!(matches!(action, ConnAction::CloseAndStop));
}

#[test]
fn dead_stream_stops_silently_and_quiet_poll_idles() {
    assert!(matches!(connection_step(false, Some(FrameEvent::Failed)), ConnAction::Stop));
    assert!(matches!(connection_step(false, None), ConnAction::Idle));
}

#[test]
fn one_connection_never_affects_another() {
    let mut g = ConnectionGateway::new();
    let a = g.accept_connection();
    let b = g.accept_connection();
    let c = g.accept_connection();
    assert_eq!(g.connection_count(), 3);
    // A close frame on the second connection ends only that task.
    let action = g.poll_connection(b, false, Some(FrameEvent::Close));
    assert!(matches!(action, ConnAction::CloseAndStop));
    assert!(g.live[a]);
    assert!(!g.live[b]);
    assert!(g.live[c]);
    // Traffic on the first connection leaves the third alone.
    let echo = g.poll_connection(a, false, Some(FrameEvent::Data("ping".to_string())));
    assert!(matches!(echo, ConnAction::RelayAndEcho { .. }));
    assert!(g.live[a]);
    assert!(g.live[c]);
}

#[test]
fn shutdown_closes_every_connection_in_one_poll() {
    let mut g = ConnectionGateway::new();
    let a = g.accept_connection();
    let b = g.accept_connection();
    let first = g.poll_connection(a, true, Some(FrameEvent::Data("pending".to_string())));
    let second = g.poll_connection(b, true, None);
    assert!(matches!(first, ConnAction::CloseAndStop));
    assert!(matches!(second, ConnAction::CloseAndStop));
    assert!(!g.live[a]);
    assert!(!g.live[b]);
}

#[test]
fn a_connection_echoes_each_data_frame_until_the_close() {
    let polls = vec![
        (false, Some(FrameEvent::Data("one".to_string()))),
        (false, None),
        (false, Some(FrameEvent::Data("two".to_string()))),
        (false, Some(FrameEvent::Close)),
        (false, Some(FrameEvent::Data("never processed".to_string()))),
    ];
    let (consumed, echoes) = serve_connection(&polls);
    assert_eq!(consumed, 4);
    assert_eq!(echoes, 2);
}

#[test]
fn a_shutdown_poll_ends_the_service_without_echoing() {
    let polls = vec![
        (false, Some(FrameEvent::Data("one".to_string()))),
        (true, Some(FrameEvent::Data("two".to_string()))),
        (false, Some(FrameEvent::Data("three".to_string()))),
    ];
    let (consumed, echoes) = serve_connection(&polls);
    assert_eq!(consumed, 2);
    assert_eq!(echoes, 1);
    // A quiet connection consumes every poll.
    let quiet = vec![(false, None), (false, None)];
    assert_eq!(serve_connection(&quiet), (2, 0));
}

#[test]
fn ack_text_is_fixed() {
    assert_eq!(ack_message(), "ack");
}

#[test]
fn tab_commands_carry_what_was_asked() {
    match set_tab_volume(12, 500) {
        ExtensionCommand::SetVolume { tab_id, volume } => {
            assert_eq!(tab_id, 12);
            assert_eq!(volume, 500);
        },
        _ => panic!("expected a volume command"),
    }
    match set_tab_mute(3, true, 750) {
        ExtensionCommand::SetMute { tab_id, mute, initial_volume } => {
            assert_eq!(tab_id, 3);
            assert!(mute);
            assert_eq!(initial_volume, 750);
        },
        _ => panic!("expected a mute command"),
    }
}

#[test]
fn accept_failure_becomes_server_error_event() {
    let e = accept_failure_event("port already bound".to_string());
    match e {
        OutboundEvent::ServerError { message } => assert_eq!(message, "port already bound"),
        _ => panic!("expected a server-error event"),
    }
}
