use oni_sidecar::supervisor::{Phase, StartError, Supervisor, DEFAULT_PORT};

#[test]
fn default_port_before_any_start() {
    let s = Supervisor::new();
    assert_eq!(DEFAULT_PORT, 5173);
    assert_eq!(s.get_server_port(), 5173);
    assert_eq!(s.phase, Phase::NotStarted);
    assert_eq!(s.child_pid, None);
}

#[test]
fn spawn_failure_holds_no_handle() {
    let mut s = Supervisor::new();
    let e = s.record_spawn_failure("No such file or directory (os error 2)".to_string());
    assert_eq!(s.child_pid, None);
    assert_eq!(s.phase, Phase::Failed);
    match e {
        StartError::Spawn(msg) => assert_eq!(msg, "No such file or directory (os error 2)"),
        StartError::Timeout => panic!("spawn failure reported as timeout"),
    }
}

#[test]
fn spawn_error_message_carries_os_text() {
    let e = StartError::Spawn("No such file or directory (os error 2)".to_string());
    assert_eq!(
        e.message(),
        "Failed to start Node server: No such file or directory (os error 2)"
    );
}

#[test]
fn timeout_error_message_is_fixed() {
    let e = StartError::Timeout;
    assert_eq!(
        e.message(),
        "Node server did not become ready within 15 seconds"
    );
}

#[test]
fn successful_start_confirms_same_port() {
    let mut s = Supervisor::new();
    s.record_spawned(4242);
    assert_eq!(s.phase, Phase::Starting);
    let port = s.record_ready();
    assert_eq!(port, 5173);
    assert_eq!(s.get_server_port(), 5173);
    assert_eq!(s.phase, Phase::Ready);
    assert_eq!(s.child_pid, Some(4242));
}

#[test]
fn stop_clears_handle_and_is_idempotent() {
    let mut s = Supervisor::new();
    s.record_spawned(4242);
    s.record_ready();
    let victim = s.stop();
    assert_eq!(victim, Some(4242));
    assert_eq!(s.child_pid, None);
    assert_eq!(s.phase, Phase::Stopped);
    let again = s.stop();
    assert_eq!(again, None);
    assert_eq!(s.child_pid, None);
    assert_eq!(s.phase, Phase::Stopped);
    assert_eq!(s.get_server_port(), 5173);
}

#[test]
fn stop_with_nothing_held_is_a_no_op() {
    let mut s = Supervisor::new();
    assert_eq!(s.stop(), None);
    assert_eq!(s.phase, Phase::NotStarted);
    assert_eq!(s.get_server_port(), 5173);
}

#[test]
fn timeout_keeps_child_for_shutdown() {
    let mut s = Supervisor::new();
    s.record_spawned(7);
    let e = s.record_timeout();
    assert!(matches!(e, StartError::Timeout));
    assert_eq!(s.phase, Phase::Failed);
    assert_eq!(s.child_pid, Some(7));
    let victim = s.stop();
    assert_eq!(victim, Some(7));
    assert_eq!(s.phase, Phase::Stopped);
}
