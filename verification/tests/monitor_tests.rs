use nodepass_gui::monitor::{LineDecision, StreamKind, classify_line, format_line,
    is_fatal_error_log};
use nodepass_gui::version::extract_version_from_output;

#[test]
fn fatal_on_error_and_resolve_failed() {
    assert!(is_fatal_error_log("2024 ERROR Resolve failed: timeout"));
}

#[test]
fn fatal_is_case_insensitive_and_order_independent() {
    assert!(is_fatal_error_log("Error resolve FAILED"));
    assert!(is_fatal_error_log("resolve failed ... error"));
}

#[test]
fn error_alone_is_not_fatal() {
    assert!(!is_fatal_error_log("ERROR something else happened"));
}

#[test]
fn resolve_failed_without_error_is_not_fatal() {
    assert!(!is_fatal_error_log("INFO resolve failed is fine"));
}

#[test]
fn empty_line_is_not_fatal() {
    assert!(!is_fatal_error_log(""));
}

#[test]
fn stdout_lines_format_as_info() {
    assert_eq!(format_line(StreamKind::Stdout, "hello"), "[INFO] hello".to_string());
}

#[test]
fn stderr_lines_format_as_error() {
    assert_eq!(format_line(StreamKind::Stderr, "bad"), "[ERROR] bad".to_string());
}

#[test]
fn classify_buffers_ordinary_lines() {
    match classify_line(StreamKind::Stdout, "listening") {
        LineDecision::Buffer { formatted } => assert_eq!(formatted, "[INFO] listening"),
        LineDecision::Fatal => panic!("ordinary line classified fatal"),
    }
}

#[test]
fn classify_raises_fatal() {
    match classify_line(StreamKind::Stderr, "ERROR Resolve failed: dns") {
        LineDecision::Fatal => {}
        LineDecision::Buffer { .. } => panic!("fatal line was buffered"),
    }
}

#[test]
fn version_extracted_from_marker_line() {
    let out = "Usage: nodepass <url>\nVersion: v1.2.4 windows/amd64\n";
    assert_eq!(extract_version_from_output(out), Some("v1.2.4".to_string()));
}

#[test]
fn version_absent_when_no_marker() {
    assert_eq!(extract_version_from_output("no marker here"), None);
}

#[test]
fn version_empty_after_marker_yields_none() {
    assert_eq!(extract_version_from_output("Version:   \nVersion: v9.9\n"), None);
}

#[test]
fn version_first_marker_line_wins() {
    let out = "Version: v1.0 linux\nVersion: v2.0 linux\n";
    assert_eq!(extract_version_from_output(out), Some("v1.0".to_string()));
}
