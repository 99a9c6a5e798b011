use secure_ws::api::{
    broadcast_to_clients, enable_encryption, get_heartbeat_interval, get_max_clients,
    get_read_timeout, get_replay_window, get_server_client_count, is_client_connected,
    is_encryption_enabled, next_outbound_wire, parse_key, send_to_client_by_id, send_to_server,
    set_client_encryption_key, set_heartbeat_interval, set_log_level, set_max_clients,
    set_read_timeout, set_replay_window, set_server_encryption_key, set_skip_cert_verify,
};
use secure_ws::config::WsConfig;
use secure_ws::envelope::{decrypt_with_key, parse_envelope};
use secure_ws::events::{connection_event, message_event, name_connection, EventType};
use secure_ws::listener::{
    decide_admission, register_client, register_client_at, start_ws_server, Admission,
};
use secure_ws::logging::{log_line, should_log, write_log, LogLevel};
use secure_ws::reconnect::{
    after_attempt, client_connected, connect_ws_client, next_attempt, AfterAttempt, Attempt,
    RECONNECT_BACKOFF_SECONDS,
};
use secure_ws::registry::{ClientConnection, ConnectionRegistry};
use secure_ws::state::{Role, WsState};
use secure_ws::supervisor::{
    close_connection, finish_close, idle_expired, idle_remaining_ms, is_connection_open,
    on_reader_event, on_reader_event_at, on_send_result, tick_event, ConnectionState,
    ReaderAction, ReaderEvent,
};

const KEY: [u8; 32] = [0x42; 32];

fn server_with_clients(n: u64) -> WsState {
    let mut state = WsState::new();
    for _ in 0..n {
        match decide_admission(&mut state) {
            Admission::Accepted(id) => {
                register_client(&mut state, id);
            }
            Admission::Refused => panic!("refused below the ceiling"),
        }
    }
    state
}

fn queued(state: &WsState, id: u64) -> Vec<String> {
    state
        .clients
        .get(id)
        .expect("registered")
        .outbound
        .iter()
        .cloned()
        .collect()
}

// ---------------------------------------------------------------- configuration

#[test]
fn configuration_starts_with_the_defaults() {
    let config = WsConfig::new();
    assert_eq!(config.get_max_clients(), 1000);
    assert_eq!(config.get_heartbeat_interval(), 30);
    assert_eq!(config.get_read_timeout(), 60);
    assert_eq!(config.get_replay_window(), 300);
    assert!(!config.get_skip_cert_verify());
    assert!(!config.get_encryption_enabled());
}

#[test]
fn each_setter_changes_its_knob_only() {
    let mut config = WsConfig::new();
    config.set_max_clients(7);
    config.set_heartbeat_interval(11);
    config.set_read_timeout(13);
    config.set_replay_window(-17);
    config.set_skip_cert_verify(true);
    config.set_encryption_enabled(true);
    assert_eq!(config.get_max_clients(), 7);
    assert_eq!(config.get_heartbeat_interval(), 11);
    assert_eq!(config.get_read_timeout(), 13);
    assert_eq!(config.get_replay_window(), -17);
    assert!(config.get_skip_cert_verify());
    assert!(config.get_encryption_enabled());
    config.set_max_clients(0);
    assert_eq!(config.get_max_clients(), 0);
    assert_eq!(config.get_heartbeat_interval(), 11);
}

#[test]
fn state_knobs_read_back() {
    let mut state = WsState::new();
    assert_eq!(get_max_clients(&state), 1000);
    assert_eq!(get_heartbeat_interval(&state), 30);
    assert_eq!(get_read_timeout(&state), 60);
    assert_eq!(get_replay_window(&state), 300);
    assert!(!is_encryption_enabled(&state));
    set_max_clients(&mut state, 2);
    set_heartbeat_interval(&mut state, 3);
    set_read_timeout(&mut state, 4);
    set_replay_window(&mut state, 5);
    set_skip_cert_verify(&mut state, true);
    enable_encryption(&mut state, true);
    assert_eq!(get_max_clients(&state), 2);
    assert_eq!(get_heartbeat_interval(&state), 3);
    assert_eq!(get_read_timeout(&state), 4);
    assert_eq!(get_replay_window(&state), 5);
    assert!(state.config.get_skip_cert_verify());
    assert!(is_encryption_enabled(&state));
    assert_eq!(state.next_client_id, 1);
}

#[test]
fn keys_must_be_32_bytes() {
    let mut state = WsState::new();
    assert_eq!(parse_key(&[1u8; 31]), None);
    assert_eq!(parse_key(&[1u8; 33]), None);
    assert_eq!(parse_key(&[]), None);
    let mut bytes = [0u8; 32];
    for (i, b) in bytes.iter_mut().enumerate() {
        *b = i as u8;
    }
    assert_eq!(parse_key(&bytes), Some(bytes));
    assert!(!set_server_encryption_key(&mut state, &[1u8; 16]));
    assert_eq!(state.server_key, None);
    assert!(set_server_encryption_key(&mut state, &bytes));
    assert_eq!(state.server_key, Some(bytes));
    assert_eq!(state.client_key, None);
    assert!(!set_server_encryption_key(&mut state, &[1u8; 64]));
    assert_eq!(state.server_key, Some(bytes));
    assert!(!set_client_encryption_key(&mut state, &[]));
    assert!(set_client_encryption_key(&mut state, &KEY));
    assert_eq!(state.client_key, Some(KEY));
}

// ---------------------------------------------------------------- logging

#[test]
fn log_levels_by_number() {
    assert_eq!(LogLevel::from_u8(0), LogLevel::Error);
    assert_eq!(LogLevel::from_u8(1), LogLevel::Warn);
    assert_eq!(LogLevel::from_u8(2), LogLevel::Info);
    assert_eq!(LogLevel::from_u8(3), LogLevel::Debug);
    assert_eq!(LogLevel::from_u8(4), LogLevel::Info);
    assert_eq!(LogLevel::from_u8(255), LogLevel::Info);
    assert_eq!(LogLevel::Error.to_u8(), 0);
    assert_eq!(LogLevel::Debug.to_u8(), 3);
}

#[test]
fn a_line_is_written_up_to_the_threshold_or_when_forced() {
    assert!(should_log(LogLevel::Error, false, 0));
    assert!(!should_log(LogLevel::Warn, false, 0));
    assert!(should_log(LogLevel::Info, false, 2));
    assert!(!should_log(LogLevel::Debug, false, 2));
    assert!(should_log(LogLevel::Debug, false, 3));
    assert!(should_log(LogLevel::Debug, true, 0));
}

#[test]
fn log_level_is_clamped() {
    let mut state = WsState::new();
    assert_eq!(state.log_level, 2);
    set_log_level(&mut state, 0);
    assert_eq!(state.log_level, 0);
    set_log_level(&mut state, 3);
    assert_eq!(state.log_level, 3);
    set_log_level(&mut state, 200);
    assert_eq!(state.log_level, 3);
}

#[test]
fn log_lines_carry_tag_and_line_feed() {
    assert_eq!(log_line(LogLevel::Info, "started"), "[INFO] started\n");
    assert_eq!(log_line(LogLevel::Warn, ""), "[WARN] \n");
    assert_eq!(write_log(0, "bad"), Some("[ERROR] bad\n".to_string()));
    assert_eq!(write_log(1, "hm"), Some("[WARN] hm\n".to_string()));
    assert_eq!(write_log(2, "ok"), Some("[INFO] ok\n".to_string()));
    assert_eq!(write_log(3, "dbg"), None);
    assert_eq!(write_log(9, "x"), None);
}

// ---------------------------------------------------------------- registry

#[test]
fn registry_inserts_finds_and_removes() {
    let mut registry = ConnectionRegistry::new();
    assert_eq!(registry.count(), 0);
    assert!(registry.get(1).is_none());
    registry.insert(ClientConnection::new_at(1, 100));
    registry.insert(ClientConnection::new_at(5, 200));
    registry.insert(ClientConnection::new_at(3, 300));
    assert_eq!(registry.count(), 3);
    assert!(registry.contains(5));
    assert!(!registry.contains(2));
    assert_eq!(registry.get(3).expect("present").get_connected_at(), 300);
    assert_eq!(registry.ids(), vec![1, 5, 3]);

    let removed = registry.remove(5).expect("present");
    assert_eq!(removed.get_id(), 5);
    assert_eq!(removed.get_last_active(), 200);
    assert_eq!(registry.count(), 2);
    assert!(!registry.contains(5));
    assert!(registry.remove(5).is_none());
    assert_eq!(registry.count(), 2);
    assert_eq!(registry.ids(), vec![1, 3]);
}

#[test]
fn registry_replaces_a_handle_with_the_same_identifier() {
    let mut registry = ConnectionRegistry::new();
    registry.insert(ClientConnection::new_at(1, 100));
    registry.insert(ClientConnection::new_at(2, 100));
    let mut again = ClientConnection::new_at(1, 900);
    again.send("queued".to_string());
    registry.insert(again);
    assert_eq!(registry.count(), 2);
    assert_eq!(registry.ids(), vec![1, 2]);
    assert_eq!(registry.get(1).expect("present").get_connected_at(), 900);
    assert_eq!(registry.get(1).expect("present").outbound.len(), 1);
}

#[test]
fn connection_queue_is_first_in_first_out() {
    let mut connection = ClientConnection::new_at(9, 50);
    assert_eq!(connection.get_id(), 9);
    assert_eq!(connection.get_connected_at(), 50);
    assert_eq!(connection.get_last_active(), 50);
    assert_eq!(connection.next_outbound(), None);
    connection.send("a".to_string());
    connection.send("b".to_string());
    connection.send("c".to_string());
    connection.update_activity_at(60);
    assert_eq!(connection.get_last_active(), 60);
    assert_eq!(connection.get_connected_at(), 50);
    assert_eq!(connection.next_outbound(), Some("a".to_string()));
    assert_eq!(connection.next_outbound(), Some("b".to_string()));
    assert_eq!(connection.next_outbound(), Some("c".to_string()));
    assert_eq!(connection.next_outbound(), None);
}

#[test]
fn connection_made_now_is_active_now() {
    let mut connection = ClientConnection::new(4);
    assert_eq!(connection.get_id(), 4);
    assert_eq!(connection.get_connected_at(), connection.get_last_active());
    assert!(connection.get_connected_at() > 1_600_000_000);
    let before = connection.get_last_active();
    connection.update_activity();
    assert!(connection.get_last_active() >= before);
}

#[test]
fn activity_now_replaces_a_stale_time_by_the_clock_in_seconds() {
    let mut connection = ClientConnection::new_at(4, 10);
    connection.send("kept".to_string());
    connection.update_activity();
    assert!(connection.get_last_active() > 1_600_000_000);
    assert!(connection.get_last_active() < 1_000_000_000_000);
    assert_eq!(connection.get_connected_at(), 10);
    assert_eq!(connection.get_id(), 4);
    assert_eq!(connection.outbound.len(), 1);
}

#[test]
fn registry_queues_per_connection() {
    let mut registry = ConnectionRegistry::new();
    registry.insert(ClientConnection::new_at(1, 100));
    registry.insert(ClientConnection::new_at(2, 100));
    assert!(registry.send_to(2, "x".to_string(), true, 150));
    assert!(registry.send_to(2, "y".to_string(), false, 170));
    assert!(!registry.send_to(3, "z".to_string(), true, 150));
    assert!(registry.send_to(1, "w".to_string(), false, 0));
    assert_eq!(registry.get(2).expect("present").get_last_active(), 150);
    assert_eq!(registry.get(1).expect("present").get_last_active(), 100);
    assert!(registry.touch(1, 180));
    assert!(!registry.touch(7, 180));
    assert_eq!(registry.get(1).expect("present").get_last_active(), 180);
    assert_eq!(registry.next_outbound(2), Some("x".to_string()));
    assert_eq!(registry.next_outbound(2), Some("y".to_string()));
    assert_eq!(registry.next_outbound(2), None);
    assert_eq!(registry.next_outbound(1), Some("w".to_string()));
    assert_eq!(registry.next_outbound(9), None);
    assert_eq!(registry.count(), 2);
}

// ---------------------------------------------------------------- listener

#[test]
fn server_start_needs_both_paths_for_the_secure_variant() {
    let plan = start_ws_server(None, false, None, None).expect("plain start");
    assert_eq!(plan.bind_addr, "0.0.0.0:8765");
    assert!(!plan.use_wss);
    assert_eq!(plan.cert_pem_path, None);
    assert_eq!(plan.key_pem_path, None);

    let plan = start_ws_server(Some("127.0.0.1:0"), false, Some("c.pem"), None).expect("plain");
    assert_eq!(plan.bind_addr, "127.0.0.1:0");
    assert_eq!(plan.cert_pem_path, None);

    assert!(start_ws_server(Some("127.0.0.1:0"), true, None, None).is_none());
    assert!(start_ws_server(Some("127.0.0.1:0"), true, Some("c.pem"), None).is_none());
    assert!(start_ws_server(Some("127.0.0.1:0"), true, None, Some("k.pem")).is_none());

    let plan = start_ws_server(None, true, Some("c.pem"), Some("k.pem")).expect("secure start");
    assert!(plan.use_wss);
    assert_eq!(plan.bind_addr, "0.0.0.0:8765");
    assert_eq!(plan.cert_pem_path, Some("c.pem".to_string()));
    assert_eq!(plan.key_pem_path, Some("k.pem".to_string()));
}

#[test]
fn identifiers_start_at_one_and_grow() {
    let mut state = WsState::new();
    assert_eq!(decide_admission(&mut state), Admission::Accepted(1));
    assert_eq!(decide_admission(&mut state), Admission::Accepted(2));
    register_client(&mut state, 2);
    assert!(close_connection(&mut state, Role::Server, 2).is_some());
    assert_eq!(decide_admission(&mut state), Admission::Accepted(3));
    assert_eq!(state.next_client_id, 4);
}

#[test]
fn connection_ceiling_refuses_without_touching_the_others() {
    let mut state = server_with_clients(3);
    set_max_clients(&mut state, 3);
    assert!(send_to_client_by_id(&mut state, "2", "kept"));
    let next_before = state.next_client_id;

    assert_eq!(decide_admission(&mut state), Admission::Refused);
    assert_eq!(decide_admission(&mut state), Admission::Refused);

    assert_eq!(state.next_client_id, next_before);
    assert_eq!(get_server_client_count(&state), 3);
    for id in 1..=3u64 {
        assert!(state.clients.contains(id));
    }
    assert_eq!(queued(&state, 2), vec!["kept".to_string()]);

    assert!(close_connection(&mut state, Role::Server, 1).is_some());
    assert_eq!(decide_admission(&mut state), Admission::Accepted(4));
}

#[test]
fn a_ceiling_of_zero_refuses_everyone() {
    let mut state = WsState::new();
    set_max_clients(&mut state, 0);
    assert_eq!(decide_admission(&mut state), Admission::Refused);
    assert_eq!(state.next_client_id, 1);
}

#[test]
fn identifiers_are_never_reused_when_they_run_out() {
    let mut state = WsState::new();
    state.next_client_id = u64::MAX - 1;
    assert_eq!(decide_admission(&mut state), Admission::Accepted(u64::MAX - 1));
    assert_eq!(decide_admission(&mut state), Admission::Refused);
    assert_eq!(state.next_client_id, u64::MAX);
}

#[test]
fn registering_at_a_time_stamps_the_handle() {
    let mut state = WsState::new();
    register_client_at(&mut state, 4, 1_234);
    register_client_at(&mut state, 9, 1_300);
    assert_eq!(state.clients.ids(), vec![4, 9]);
    let handle = state.clients.get(4).expect("registered");
    assert_eq!(handle.get_connected_at(), 1_234);
    assert_eq!(handle.get_last_active(), 1_234);
    assert!(handle.outbound.is_empty());
    assert!(send_to_client_by_id(&mut state, "4", "queued"));
    register_client_at(&mut state, 4, 2_000);
    assert_eq!(state.clients.ids(), vec![4, 9]);
    let handle = state.clients.get(4).expect("registered");
    assert_eq!(handle.get_connected_at(), 2_000);
    assert!(handle.outbound.is_empty());
}

#[test]
fn registering_yields_the_connect_event() {
    let mut state = WsState::new();
    let event = register_client(&mut state, 42);
    assert_eq!(event.event_type, EventType::Connect);
    assert_eq!(event.source, Role::Server);
    assert_eq!(event.client_id, "42");
    assert_eq!(event.message, "connected");
    assert_eq!(get_server_client_count(&state), 1);
    assert!(state.clients.contains(42));
    assert!(queued(&state, 42).is_empty());
}

// ---------------------------------------------------------------- events

#[test]
fn events_name_their_connection() {
    assert_eq!(name_connection(Role::Server, 0), "0");
    assert_eq!(name_connection(Role::Server, 18_446_744_073_709_551_615), "18446744073709551615");
    assert_eq!(name_connection(Role::Client, 5), "");
    let mut state = WsState::new();
    register_client(&mut state, 77);
    assert!(send_to_client_by_id(&mut state, &name_connection(Role::Server, 77), "named"));
    let event = message_event(Role::Client, "", "hi");
    assert_eq!(event.event_type, EventType::Message);
    assert_eq!(event.source, Role::Client);
    assert_eq!(event.client_id, "");
    assert_eq!(event.message, "hi");
    let event = connection_event(Role::Server, "3", false);
    assert_eq!(event.event_type, EventType::Disconnect);
    assert_eq!(event.client_id, "3");
    assert_eq!(event.message, "disconnected");
}

// ---------------------------------------------------------------- supervisor

#[test]
fn heartbeat_tick_sends_a_ping_every_time() {
    let mut state = server_with_clients(1);
    for _ in 0..5 {
        let step = on_reader_event(
            &mut state,
            Role::Server,
            1,
            ConnectionState::Active,
            ReaderEvent::HeartbeatTick,
        );
        assert_eq!(step.next, ConnectionState::Active);
        assert!(matches!(step.action, ReaderAction::SendPing));
    }
    assert!(state.clients.contains(1));
}

#[test]
fn ping_is_answered_with_the_same_bytes() {
    let mut state = server_with_clients(1);
    let step = on_reader_event(
        &mut state,
        Role::Server,
        1,
        ConnectionState::Active,
        ReaderEvent::Ping(vec![1, 2, 3]),
    );
    assert_eq!(step.next, ConnectionState::Active);
    match step.action {
        ReaderAction::ReplyPong(data) => assert_eq!(data, vec![1, 2, 3]),
        _ => panic!("expected a pong"),
    }
}

#[test]
fn fatal_events_start_the_teardown() {
    let fatal = [
        ReaderEvent::Close,
        ReaderEvent::StreamEnded,
        ReaderEvent::TransportError,
        ReaderEvent::ReadTimeout,
    ];
    for event in fatal {
        let mut state = server_with_clients(1);
        let step = on_reader_event(&mut state, Role::Server, 1, ConnectionState::Active, event);
        assert_eq!(step.next, ConnectionState::Closing);
        assert!(matches!(step.action, ReaderAction::Close));
        assert!(state.clients.contains(1));
    }
}

#[test]
fn other_frames_are_ignored() {
    let mut state = server_with_clients(1);
    let step = on_reader_event(
        &mut state,
        Role::Server,
        1,
        ConnectionState::Active,
        ReaderEvent::OtherFrame,
    );
    assert_eq!(step.next, ConnectionState::Active);
    assert!(matches!(step.action, ReaderAction::Ignore));
}

#[test]
fn only_an_active_connection_reacts() {
    for current in [
        ConnectionState::Handshaking,
        ConnectionState::Closing,
        ConnectionState::Closed,
    ] {
        let mut state = server_with_clients(1);
        let step = on_reader_event(
            &mut state,
            Role::Server,
            1,
            current,
            ReaderEvent::Text("late".to_string()),
        );
        assert_eq!(step.next, current);
        assert!(matches!(step.action, ReaderAction::Ignore));
        let step = on_reader_event(&mut state, Role::Server, 1, current, ReaderEvent::ReadTimeout);
        assert_eq!(step.next, current);
        assert!(matches!(step.action, ReaderAction::Ignore));
    }
}

#[test]
fn text_frame_is_delivered_and_counts_as_activity() {
    let mut state = WsState::new();
    state.clients.insert(ClientConnection::new_at(7, 10));
    let step = on_reader_event_at(
        &mut state,
        Role::Server,
        7,
        ConnectionState::Active,
        ReaderEvent::Text("hello".to_string()),
        5_000_999,
    );
    assert_eq!(step.next, ConnectionState::Active);
    match step.action {
        ReaderAction::Deliver(event) => {
            assert_eq!(event.event_type, EventType::Message);
            assert_eq!(event.source, Role::Server);
            assert_eq!(event.client_id, "7");
            assert_eq!(event.message, "hello");
        }
        _ => panic!("expected a delivery"),
    }
    assert_eq!(state.clients.get(7).expect("present").get_last_active(), 5_000);
    assert_eq!(state.clients.get(7).expect("present").get_connected_at(), 10);
}

#[test]
fn frame_that_does_not_unwrap_is_dropped_and_the_connection_stays() {
    let mut state = WsState::new();
    state.clients.insert(ClientConnection::new_at(7, 10));
    enable_encryption(&mut state, true);
    assert!(set_server_encryption_key(&mut state, &KEY));
    let step = on_reader_event_at(
        &mut state,
        Role::Server,
        7,
        ConnectionState::Active,
        ReaderEvent::Text("not sealed".to_string()),
        5_000_000,
    );
    assert_eq!(step.next, ConnectionState::Active);
    assert!(matches!(step.action, ReaderAction::Ignore));
    assert!(state.clients.contains(7));
    assert_eq!(state.clients.get(7).expect("present").get_last_active(), 10);
    assert_eq!(state.replay.last_seen("7"), None);
}

#[test]
fn sealed_frame_is_delivered_and_recorded_under_the_connection() {
    let mut sender = WsState::new();
    enable_encryption(&mut sender, true);
    assert!(set_client_encryption_key(&mut sender, &KEY));
    let wire = secure_ws::pipeline::wrap_at(&sender.config, &sender.client_key, "hi", 9_000, &[3; 12])
        .wire;

    let mut state = WsState::new();
    state.clients.insert(ClientConnection::new_at(7, 1));
    enable_encryption(&mut state, true);
    assert!(set_server_encryption_key(&mut state, &KEY));
    let step = on_reader_event_at(
        &mut state,
        Role::Server,
        7,
        ConnectionState::Active,
        ReaderEvent::Text(wire.clone()),
        10_000,
    );
    match step.action {
        ReaderAction::Deliver(event) => assert_eq!(event.message, "hi"),
        _ => panic!("expected a delivery"),
    }
    assert_eq!(state.replay.last_seen("7"), Some(9_000));

    let step = on_reader_event_at(
        &mut state,
        Role::Server,
        7,
        ConnectionState::Active,
        ReaderEvent::Text(wire),
        9_000 + 300_001,
    );
    assert!(matches!(step.action, ReaderAction::Ignore));
    assert_eq!(step.next, ConnectionState::Active);
}

#[test]
fn client_reader_records_under_the_server_source() {
    let mut state = WsState::new();
    enable_encryption(&mut state, true);
    assert!(set_client_encryption_key(&mut state, &KEY));
    client_connected(&mut state);
    let wire = secure_ws::pipeline::wrap_at(&state.config, &Some(KEY), "news", 9_000, &[3; 12]).wire;
    let step = on_reader_event_at(
        &mut state,
        Role::Client,
        0,
        ConnectionState::Active,
        ReaderEvent::Text(wire),
        9_500,
    );
    match step.action {
        ReaderAction::Deliver(event) => {
            assert_eq!(event.source, Role::Client);
            assert_eq!(event.client_id, "");
            assert_eq!(event.message, "news");
        }
        _ => panic!("expected a delivery"),
    }
    assert_eq!(state.replay.last_seen("server"), Some(9_000));
}

#[test]
fn read_timeout_closes_and_emits_one_disconnect() {
    let mut state = server_with_clients(2);
    let step = on_reader_event(
        &mut state,
        Role::Server,
        1,
        ConnectionState::Active,
        ReaderEvent::ReadTimeout,
    );
    assert_eq!(step.next, ConnectionState::Closing);
    let writer_state = on_send_result(ConnectionState::Active, false);
    assert_eq!(writer_state, ConnectionState::Closing);

    let first = close_connection(&mut state, Role::Server, 1).expect("first teardown");
    assert_eq!(first.event_type, EventType::Disconnect);
    assert_eq!(first.source, Role::Server);
    assert_eq!(first.client_id, "1");
    assert_eq!(first.message, "disconnected");
    assert!(!is_connection_open(&state, Role::Server, 1));
    assert!(is_connection_open(&state, Role::Server, 2));
    assert!(close_connection(&mut state, Role::Server, 1).is_none());
    assert!(close_connection(&mut state, Role::Server, 1).is_none());

    assert_eq!(get_server_client_count(&state), 1);
    assert!(state.clients.contains(2));
    assert_eq!(finish_close(step.next), ConnectionState::Closed);
    assert_eq!(finish_close(ConnectionState::Active), ConnectionState::Active);
}

#[test]
fn client_teardown_clears_the_flag_once_and_drops_the_queue() {
    let mut state = WsState::new();
    assert!(close_connection(&mut state, Role::Client, 0).is_none());
    client_connected(&mut state);
    assert!(send_to_server(&mut state, "pending"));
    let event = close_connection(&mut state, Role::Client, 0).expect("first teardown");
    assert_eq!(event.event_type, EventType::Disconnect);
    assert_eq!(event.source, Role::Client);
    assert_eq!(event.client_id, "");
    assert!(!is_client_connected(&state));
    assert!(state.client.outbound.is_none());
    assert!(close_connection(&mut state, Role::Client, 0).is_none());
    assert!(!send_to_server(&mut state, "late"));
}

#[test]
fn read_timeout_counts_from_the_last_frame() {
    assert!(!idle_expired(1_000, 1_000, 60));
    assert!(!idle_expired(1_000, 60_999, 60));
    assert!(idle_expired(1_000, 61_000, 60));
    assert!(idle_expired(1_000, 61_001, 60));
    assert!(idle_expired(5, 5, 0));
    assert!(!idle_expired(5, 4, 0));
    assert!(idle_expired(i64::MIN, i64::MAX, 60));
    assert!(!idle_expired(i64::MAX, i64::MIN, 0));
    assert!(!idle_expired(0, i64::MAX, u64::MAX));
}

#[test]
fn remaining_wait_shrinks_with_the_idle_time() {
    assert_eq!(idle_remaining_ms(1_000, 1_000, 60), 60_000);
    assert_eq!(idle_remaining_ms(1_000, 31_000, 60), 30_000);
    assert_eq!(idle_remaining_ms(1_000, 60_999, 60), 1);
    assert_eq!(idle_remaining_ms(1_000, 61_000, 60), 0);
    assert_eq!(idle_remaining_ms(1_000, 99_000, 60), 0);
    assert_eq!(idle_remaining_ms(1_000, 500, 60), 60_500);
    assert_eq!(idle_remaining_ms(0, 0, 0), 0);
    assert_eq!(idle_remaining_ms(0, 0, u64::MAX), u64::MAX);
    assert_eq!(idle_remaining_ms(i64::MAX, i64::MIN, u64::MAX), u64::MAX);
}

#[test]
fn heartbeat_shorter_than_the_timeout_does_not_keep_an_idle_connection() {
    let mut state = server_with_clients(1);
    let heartbeat_ms = 30_000;
    let timeout_seconds = 60;
    let last_frame = 0;
    let mut current = ConnectionState::Active;
    let mut pings = 0;
    let mut now = 0;
    while current == ConnectionState::Active {
        now += heartbeat_ms;
        let event = tick_event(last_frame, now, timeout_seconds);
        let step = on_reader_event(&mut state, Role::Server, 1, current, event);
        if matches!(step.action, ReaderAction::SendPing) {
            pings += 1;
        }
        current = step.next;
    }
    assert_eq!(now, 60_000);
    assert_eq!(pings, 1);
    assert_eq!(current, ConnectionState::Closing);
    assert!(close_connection(&mut state, Role::Server, 1).is_some());
    assert!(close_connection(&mut state, Role::Server, 1).is_none());
    assert!(!send_to_client_by_id(&mut state, "1", "late"));
}

#[test]
fn a_frame_restarts_the_read_timeout() {
    assert!(matches!(tick_event(0, 59_999, 60), ReaderEvent::HeartbeatTick));
    assert!(matches!(tick_event(0, 60_000, 60), ReaderEvent::ReadTimeout));
    assert!(matches!(tick_event(45_000, 60_000, 60), ReaderEvent::HeartbeatTick));
    assert!(matches!(tick_event(45_000, 105_000, 60), ReaderEvent::ReadTimeout));
}

#[test]
fn send_result_decides_on_the_writer() {
    assert_eq!(on_send_result(ConnectionState::Active, true), ConnectionState::Active);
    assert_eq!(on_send_result(ConnectionState::Active, false), ConnectionState::Closing);
    assert_eq!(on_send_result(ConnectionState::Closing, false), ConnectionState::Closing);
    assert_eq!(on_send_result(ConnectionState::Closed, false), ConnectionState::Closed);
    assert_eq!(on_send_result(ConnectionState::Closed, true), ConnectionState::Closed);
}

// ---------------------------------------------------------------- sending

#[test]
fn broadcast_queues_for_every_client() {
    let mut state = server_with_clients(3);
    assert!(broadcast_to_clients(&mut state, "all"));
    assert!(broadcast_to_clients(&mut state, "again"));
    for id in 1..=3u64 {
        assert_eq!(queued(&state, id), vec!["all".to_string(), "again".to_string()]);
    }
    let mut empty = WsState::new();
    assert!(broadcast_to_clients(&mut empty, "nobody"));
    assert_eq!(get_server_client_count(&empty), 0);
}

#[test]
fn broadcast_wraps_for_each_client_separately() {
    let mut state = server_with_clients(2);
    enable_encryption(&mut state, true);
    assert!(set_server_encryption_key(&mut state, &KEY));
    assert!(broadcast_to_clients(&mut state, "all"));
    let first = queued(&state, 1);
    let second = queued(&state, 2);
    assert_eq!(first.len(), 1);
    assert_eq!(second.len(), 1);
    assert_ne!(first[0], second[0]);
    for wire in [&first[0], &second[0]] {
        let json = decrypt_with_key(wire, &KEY).expect("opens");
        assert_eq!(parse_envelope(&json).expect("parses").data, "all");
    }
}

#[test]
fn send_to_one_client_by_decimal_identifier() {
    let mut state = WsState::new();
    state.clients.insert(ClientConnection::new_at(1, 10));
    state.clients.insert(ClientConnection::new_at(2, 10));
    assert!(send_to_client_by_id(&mut state, "2", "first"));
    assert!(send_to_client_by_id(&mut state, "2", "second"));
    assert_eq!(queued(&state, 2), vec!["first".to_string(), "second".to_string()]);
    assert!(queued(&state, 1).is_empty());
    assert!(state.clients.get(2).expect("present").get_last_active() > 10);
    assert_eq!(state.clients.get(1).expect("present").get_last_active(), 10);
    assert_eq!(state.clients.get(2).expect("present").get_connected_at(), 10);
}

#[test]
fn send_to_an_unknown_or_malformed_identifier_fails() {
    let mut state = server_with_clients(2);
    for id in ["3", "0", "", "abc", "-1", "1.0", " 1", "18446744073709551616"] {
        assert!(!send_to_client_by_id(&mut state, id, "lost"));
    }
    assert!(queued(&state, 1).is_empty());
    assert!(queued(&state, 2).is_empty());
    assert_eq!(get_server_client_count(&state), 2);
}

#[test]
fn client_sends_only_while_connected() {
    let mut state = WsState::new();
    assert!(!is_client_connected(&state));
    assert!(!send_to_server(&mut state, "early"));
    let event = client_connected(&mut state);
    assert_eq!(event.event_type, EventType::Connect);
    assert_eq!(event.source, Role::Client);
    assert_eq!(event.client_id, "");
    assert_eq!(event.message, "connected");
    assert!(is_client_connected(&state));
    assert!(send_to_server(&mut state, "one"));
    assert!(send_to_server(&mut state, "two"));
    assert_eq!(
        next_outbound_wire(&mut state, Role::Client, 0),
        Some("one".to_string())
    );
    assert_eq!(
        next_outbound_wire(&mut state, Role::Client, 0),
        Some("two".to_string())
    );
    assert_eq!(next_outbound_wire(&mut state, Role::Client, 0), None);
    assert!(is_client_connected(&state));
}

#[test]
fn writer_drains_in_order() {
    let mut state = server_with_clients(2);
    assert!(send_to_client_by_id(&mut state, "1", "a"));
    assert!(broadcast_to_clients(&mut state, "b"));
    assert!(send_to_client_by_id(&mut state, "1", "c"));
    assert_eq!(next_outbound_wire(&mut state, Role::Server, 1), Some("a".to_string()));
    assert_eq!(next_outbound_wire(&mut state, Role::Server, 1), Some("b".to_string()));
    assert_eq!(next_outbound_wire(&mut state, Role::Server, 1), Some("c".to_string()));
    assert_eq!(next_outbound_wire(&mut state, Role::Server, 1), None);
    assert_eq!(next_outbound_wire(&mut state, Role::Server, 2), Some("b".to_string()));
    assert_eq!(next_outbound_wire(&mut state, Role::Server, 9), None);
}

#[test]
fn writer_wraps_what_it_drains() {
    let mut state = server_with_clients(1);
    assert!(send_to_client_by_id(&mut state, "1", "queued plain"));
    enable_encryption(&mut state, true);
    assert!(set_server_encryption_key(&mut state, &KEY));
    let wire = next_outbound_wire(&mut state, Role::Server, 1).expect("one is queued");
    let json = decrypt_with_key(&wire, &KEY).expect("opens");
    assert_eq!(parse_envelope(&json).expect("parses").data, "queued plain");
}

#[test]
fn client_count_in_32_bits() {
    let state = server_with_clients(5);
    assert_eq!(get_server_client_count(&state), 5);
    assert_eq!(get_server_client_count(&WsState::new()), 0);
}

// ---------------------------------------------------------------- reconnection

#[test]
fn connect_refuses_what_is_no_url() {
    let mut state = WsState::new();
    assert!(!connect_ws_client(&mut state, None, true));
    assert!(!connect_ws_client(&mut state, Some(""), true));
    assert!(!connect_ws_client(&mut state, Some("no scheme here"), true));
    assert!(!connect_ws_client(&mut state, Some("/relative/path"), true));
    assert_eq!(state.client.url, None);
    assert!(!state.client.reconnect);
    assert!(matches!(next_attempt(&state), Attempt::GiveUp));
}

#[test]
fn connect_keeps_target_and_switch() {
    let mut state = WsState::new();
    assert!(connect_ws_client(&mut state, Some("ws://127.0.0.1:9001/chat"), true));
    assert_eq!(state.client.url, Some("ws://127.0.0.1:9001/chat".to_string()));
    assert!(state.client.reconnect);
    assert!(!is_client_connected(&state));
    assert!(connect_ws_client(&mut state, Some("wss://example.org/"), false));
    assert_eq!(state.client.url, Some("wss://example.org/".to_string()));
    assert!(!state.client.reconnect);
    assert!(!connect_ws_client(&mut state, Some("::"), true));
    assert_eq!(state.client.url, Some("wss://example.org/".to_string()));
    assert!(!state.client.reconnect);
}

#[test]
fn scheme_decides_on_tls_and_configuration_on_verification() {
    let mut state = WsState::new();
    assert!(connect_ws_client(&mut state, Some("ws://127.0.0.1:9001/"), false));
    set_skip_cert_verify(&mut state, true);
    match next_attempt(&state) {
        Attempt::Connect { url, secure, accept_invalid_certs } => {
            assert_eq!(url, "ws://127.0.0.1:9001/");
            assert!(!secure);
            assert!(!accept_invalid_certs);
        }
        Attempt::GiveUp => panic!("expected an attempt"),
    }
    assert!(connect_ws_client(&mut state, Some("WSS://example.org/x"), false));
    match next_attempt(&state) {
        Attempt::Connect { url, secure, accept_invalid_certs } => {
            assert_eq!(url, "WSS://example.org/x");
            assert!(secure);
            assert!(accept_invalid_certs);
        }
        Attempt::GiveUp => panic!("expected an attempt"),
    }
    set_skip_cert_verify(&mut state, false);
    match next_attempt(&state) {
        Attempt::Connect { secure, accept_invalid_certs, .. } => {
            assert!(secure);
            assert!(!accept_invalid_certs);
        }
        Attempt::GiveUp => panic!("expected an attempt"),
    }
    assert!(connect_ws_client(&mut state, Some("https://example.org/"), false));
    match next_attempt(&state) {
        Attempt::Connect { secure, .. } => assert!(!secure),
        Attempt::GiveUp => panic!("expected an attempt"),
    }
}

#[test]
fn reconnect_retries_at_the_fixed_backoff_without_end() {
    let mut state = WsState::new();
    assert!(connect_ws_client(&mut state, Some("ws://127.0.0.1:1/"), true));
    assert_eq!(RECONNECT_BACKOFF_SECONDS, 5);
    for _ in 0..100 {
        assert!(matches!(next_attempt(&state), Attempt::Connect { .. }));
        assert_eq!(after_attempt(&state), AfterAttempt::RetryAfter(5));
    }
}

#[test]
fn without_reconnect_the_loop_attempts_once() {
    let mut state = WsState::new();
    assert!(connect_ws_client(&mut state, Some("ws://127.0.0.1:1/"), false));
    assert!(matches!(next_attempt(&state), Attempt::Connect { .. }));
    assert_eq!(after_attempt(&state), AfterAttempt::Stop);
}

#[test]
fn switching_reconnect_off_prevents_the_next_retry() {
    let mut state = WsState::new();
    assert!(connect_ws_client(&mut state, Some("ws://127.0.0.1:1/"), true));
    assert_eq!(after_attempt(&state), AfterAttempt::RetryAfter(5));
    state.client.reconnect = false;
    assert_eq!(after_attempt(&state), AfterAttempt::Stop);
}

// ---------------------------------------------------------------- end to end

#[test]
fn client_says_hello_and_the_server_sink_hears_it() {
    let mut server = WsState::new();
    let id = match decide_admission(&mut server) {
        Admission::Accepted(id) => id,
        Admission::Refused => panic!("refused"),
    };
    let connect = register_client(&mut server, id);
    assert_eq!(connect.event_type, EventType::Connect);

    let mut client = WsState::new();
    assert!(connect_ws_client(&mut client, Some("ws://127.0.0.1:9001/"), false));
    client_connected(&mut client);
    assert!(send_to_server(&mut client, "hello"));
    let frame = next_outbound_wire(&mut client, Role::Client, 0).expect("queued");

    let step = on_reader_event(
        &mut server,
        Role::Server,
        id,
        ConnectionState::Active,
        ReaderEvent::Text(frame),
    );
    match step.action {
        ReaderAction::Deliver(event) => {
            assert_eq!(event.event_type, EventType::Message);
            assert_eq!(event.source, Role::Server);
            assert_eq!(event.client_id, "1");
            assert_eq!(event.message, "hello");
        }
        _ => panic!("expected a delivery"),
    }
}
