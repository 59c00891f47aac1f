use nodepass_gui::configs::add_config;
use nodepass_gui::command::NodePassConfig;
use nodepass_gui::locate::{executable_candidates, join_path, select_executable};

#[test]
fn join_adds_separator_when_needed() {
    assert_eq!(join_path("C:\\tools", "nodepass.exe"), "C:\\tools/nodepass.exe".to_string());
    assert_eq!(join_path("dir/", "nodepass.exe"), "dir/nodepass.exe".to_string());
    assert_eq!(join_path("dir\\", "nodepass.exe"), "dir\\nodepass.exe".to_string());
    assert_eq!(join_path("", "nodepass.exe"), "nodepass.exe".to_string());
}

#[test]
fn candidates_follow_the_search_order() {
    let cands = executable_candidates(
        Some("C:\\app"),
        Some("C:\\app\\resources\\nodepass.exe"),
        Some("C:\\one;C:\\two"),
        Some("C:\\work"),
    );
    assert_eq!(
        cands,
        vec![
            "C:\\app/nodepass.exe".to_string(),
            "C:\\app\\resources\\nodepass.exe".to_string(),
            "C:\\one/nodepass.exe".to_string(),
            "C:\\two/nodepass.exe".to_string(),
            "C:\\work/nodepass.exe".to_string(),
        ]
    );
}

#[test]
fn missing_sources_contribute_no_candidates() {
    let cands = executable_candidates(None, None, None, Some("w"));
    assert_eq!(cands, vec!["w/nodepass.exe".to_string()]);
}

#[test]
fn empty_path_value_yields_one_bare_candidate() {
    // An empty PATH value is a single empty directory, whose candidate is
    // the bare file name.
    let cands = executable_candidates(None, None, Some(""), None);
    assert_eq!(cands, vec!["nodepass.exe".to_string()]);
}

#[test]
fn first_existing_candidate_wins() {
    let cands = vec!["a".to_string(), "b".to_string(), "c".to_string()];
    let exists = vec![false, true, true];
    assert_eq!(select_executable(&cands, &exists, false), Some("b".to_string()));
}

#[test]
fn fallback_is_the_bare_command_name() {
    let cands = vec!["a".to_string()];
    let exists = vec![false];
    assert_eq!(select_executable(&cands, &exists, true), Some("nodepass".to_string()));
    assert_eq!(select_executable(&cands, &exists, false), None);
}

fn cfg(mode: &str, tunnel: &str, target: &str, log: &str) -> NodePassConfig {
    NodePassConfig {
        mode: mode.to_string(),
        tunnel_addr: tunnel.to_string(),
        target_addr: target.to_string(),
        log_level: log.to_string(),
        tls_mode: "0".to_string(),
        cert_file: None,
        key_file: None,
    }
}

#[test]
fn duplicate_key_is_not_added() {
    let mut list = Vec::new();
    add_config(&mut list, &cfg("server", "a:1", "b:2", "info"));
    assert_eq!(list.len(), 1);
    // Same key, different log level: still a duplicate.
    add_config(&mut list, &cfg("server", "a:1", "b:2", "debug"));
    assert_eq!(list.len(), 1);
    assert_eq!(list[0].log_level, "info");
}

#[test]
fn distinct_keys_append_in_order() {
    let mut list = Vec::new();
    add_config(&mut list, &cfg("server", "a:1", "b:2", "info"));
    add_config(&mut list, &cfg("client", "a:1", "b:2", "info"));
    add_config(&mut list, &cfg("server", "a:1", "c:3", "info"));
    assert_eq!(list.len(), 3);
    assert_eq!(list[1].mode, "client");
    assert_eq!(list[2].target_addr, "c:3");
}
