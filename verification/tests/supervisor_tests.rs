use nodepass_gui::monitor::StreamKind;
use nodepass_gui::registry::TunnelStatus;
use nodepass_gui::supervisor::{Event, Supervisor};

#[test]
fn start_registers_exactly_one_entry() {
    let mut s = Supervisor::new();
    assert_eq!(s.running_count(), 0);
    let evs = s.register_started("t1", 4242);
    assert_eq!(s.running_count(), 1);
    assert_eq!(evs.len(), 1);
    match &evs[0] {
        Event::StatusChanged { tunnel_id, status, pid, exit_code, error } => {
            assert_eq!(tunnel_id, "t1");
            assert!(matches!(status, TunnelStatus::Running));
            assert_eq!(*pid, Some(4242));
            assert!(exit_code.is_none());
            assert!(error.is_none());
        }
        _ => panic!("expected a status change"),
    }
}

#[test]
fn stop_removes_and_is_idempotent() {
    let mut s = Supervisor::new();
    s.register_started("t1", 1);
    assert!(s.stop_tunnel(1));
    assert_eq!(s.running_count(), 0);
    // The second stop is a tolerated no-op, never a crash.
    assert!(!s.stop_tunnel(1));
    assert_eq!(s.running_count(), 0);
}

#[test]
fn observe_line_buffers_and_forwards() {
    let mut s = Supervisor::new();
    s.register_started("t1", 7);
    let obs = s.observe_line("t1", 7, StreamKind::Stdout, "listening on 8080");
    assert!(!obs.fatal);
    assert_eq!(obs.events.len(), 1);
    match &obs.events[0] {
        Event::TunnelLog { tunnel_id, message } => {
            assert_eq!(tunnel_id, "t1");
            assert_eq!(message, "[INFO] listening on 8080");
        }
        _ => panic!("expected a log event"),
    }
    assert_eq!(s.get_tunnel_logs(7), vec!["[INFO] listening on 8080".to_string()]);
}

#[test]
fn stderr_lines_buffer_with_error_prefix() {
    let mut s = Supervisor::new();
    s.register_started("t1", 7);
    s.observe_line("t1", 7, StreamKind::Stderr, "warning-ish");
    assert_eq!(s.get_tunnel_logs(7), vec!["[ERROR] warning-ish".to_string()]);
}

#[test]
fn unknown_pid_yields_empty_logs() {
    let s = Supervisor::new();
    assert!(s.get_tunnel_logs(99).is_empty());
}

#[test]
fn fatal_line_raises_signal_without_buffering() {
    let mut s = Supervisor::new();
    s.register_started("t1", 7);
    let obs = s.observe_line("t1", 7, StreamKind::Stderr, "ERROR Resolve failed: dns");
    assert!(obs.fatal);
    match &obs.events[0] {
        Event::FatalErrorDetected { tunnel_id, pid, error } => {
            assert_eq!(tunnel_id, "t1");
            assert_eq!(*pid, 7);
            assert_eq!(error, "ERROR Resolve failed: dns");
        }
        _ => panic!("expected the fatal signal"),
    }
    // The line that trips the detector is not buffered.
    assert!(s.get_tunnel_logs(7).is_empty());
}

#[test]
fn end_to_end_fatal_scenario() {
    let mut s = Supervisor::new();
    // No status for the tunnel, then Running after a successful start.
    assert_eq!(s.running_count(), 0);
    let evs = s.register_started("tunnel-a", 31337);
    match &evs[0] {
        Event::StatusChanged { status, .. } => assert!(matches!(status, TunnelStatus::Running)),
        _ => panic!("expected a status change"),
    }
    // A fatal line arrives on stderr: the monitor raises the signal at once.
    let obs = s.observe_line("tunnel-a", 31337, StreamKind::Stderr, "ERROR Resolve failed");
    assert!(obs.fatal);
    // The supervisor reacts: termination is requested and the registry
    // forgets the id; the tunnel ends in the Error state.
    let evs = s.handle_fatal_error("tunnel-a", 31337, "ERROR Resolve failed");
    assert_eq!(s.running_count(), 0);
    assert!(s.get_tunnel_logs(31337).is_empty());
    match &evs[0] {
        Event::StatusChanged { tunnel_id, status, pid, error, .. } => {
            assert_eq!(tunnel_id, "tunnel-a");
            assert!(matches!(status, TunnelStatus::Error));
            assert!(pid.is_none());
            assert_eq!(error.as_deref(), Some("fatal error detected: ERROR Resolve failed"));
        }
        _ => panic!("expected a status change"),
    }
}

#[test]
fn exit_watch_reports_code_and_removes() {
    let mut s = Supervisor::new();
    s.register_started("t1", 5);
    let evs = s.handle_exit("t1", 5, 0);
    assert_eq!(s.running_count(), 0);
    match &evs[0] {
        Event::StatusChanged { status, exit_code, .. } => {
            assert!(matches!(status, TunnelStatus::Stopped));
            assert_eq!(*exit_code, Some(0));
        }
        _ => panic!("expected a status change"),
    }
}

#[test]
fn exit_watch_failure_reports_error() {
    let mut s = Supervisor::new();
    s.register_started("t1", 5);
    let evs = s.handle_exit_failure("t1", 5, "wait failed");
    match &evs[0] {
        Event::StatusChanged { status, error, .. } => {
            assert!(matches!(status, TunnelStatus::Error));
            assert_eq!(error.as_deref(), Some("wait failed"));
        }
        _ => panic!("expected a status change"),
    }
}

#[test]
fn stop_all_empties_registry_and_counts() {
    let mut s = Supervisor::new();
    s.register_started("a", 1);
    s.register_started("b", 2);
    s.register_started("c", 3);
    let out = s.stop_all();
    assert_eq!(s.running_count(), 0);
    let mut pids = out.pids.clone();
    pids.sort();
    assert_eq!(pids, vec![1, 2, 3]);
    assert_eq!(out.events.len(), 1);
    match &out.events[0] {
        Event::AllTunnelsStopped { stopped_count } => assert_eq!(*stopped_count, 3),
        _ => panic!("expected the all-stopped event"),
    }
}

#[test]
fn tunnel_logs_stay_bounded_through_the_supervisor() {
    let mut s = Supervisor::new();
    s.register_started("t1", 9);
    for i in 0..700 {
        let obs = s.observe_line("t1", 9, StreamKind::Stdout, &format!("line {}", i));
        assert!(!obs.fatal);
    }
    let logs = s.get_tunnel_logs(9);
    assert!(logs.len() <= 500);
    assert_eq!(logs.last().unwrap(), "[INFO] line 699");
}

#[test]
fn stop_all_on_empty_registry_emits_nothing() {
    let mut s = Supervisor::new();
    let out = s.stop_all();
    assert!(out.pids.is_empty());
    assert!(out.events.is_empty());
}
