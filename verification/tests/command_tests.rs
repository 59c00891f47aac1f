use nodepass_gui::command::{NodePassConfig, build_nodepass_command};

fn config(
    mode: &str,
    tunnel: &str,
    target: &str,
    log: &str,
    tls: &str,
    cert: Option<&str>,
    key: Option<&str>,
) -> NodePassConfig {
    NodePassConfig {
        mode: mode.to_string(),
        tunnel_addr: tunnel.to_string(),
        target_addr: target.to_string(),
        log_level: log.to_string(),
        tls_mode: tls.to_string(),
        cert_file: cert.map(|c| c.to_string()),
        key_file: key.map(|k| k.to_string()),
    }
}

#[test]
fn server_with_certificates() {
    let c = config(
        "server",
        "0.0.0.0:1234",
        "127.0.0.1:80",
        "info",
        "2",
        Some("c.pem"),
        Some("k.pem"),
    );
    let args = build_nodepass_command(&c).unwrap();
    assert_eq!(
        args,
        vec!["server://0.0.0.0:1234/127.0.0.1:80?log=info&tls=2&crt=c.pem&key=k.pem".to_string()]
    );
}

#[test]
fn client_mode_has_no_tls_parameters() {
    let c = config("client", "h:1", "t:2", "debug", "2", Some("c.pem"), Some("k.pem"));
    let args = build_nodepass_command(&c).unwrap();
    assert_eq!(args, vec!["client://h:1/t:2?log=debug".to_string()]);
}

#[test]
fn tls_mode_other_than_two_omits_certificates() {
    let c = config("server", "h:1", "t:2", "warn", "1", Some("c.pem"), Some("k.pem"));
    let args = build_nodepass_command(&c).unwrap();
    assert_eq!(args, vec!["server://h:1/t:2?log=warn&tls=1".to_string()]);
}

#[test]
fn empty_certificate_fields_are_omitted() {
    let c = config("server", "h:1", "t:2", "error", "2", Some(""), None);
    let args = build_nodepass_command(&c).unwrap();
    assert_eq!(args, vec!["server://h:1/t:2?log=error&tls=2".to_string()]);
}

#[test]
fn key_without_certificate_still_appears() {
    let c = config("server", "h:1", "t:2", "info", "2", None, Some("k.pem"));
    let args = build_nodepass_command(&c).unwrap();
    assert_eq!(args, vec!["server://h:1/t:2?log=info&tls=2&key=k.pem".to_string()]);
}

#[test]
fn same_input_same_output() {
    let a = config("server", "a:1", "b:2", "info", "2", Some("c"), Some("k"));
    let b = config("server", "a:1", "b:2", "info", "2", Some("c"), Some("k"));
    assert_eq!(build_nodepass_command(&a).unwrap(), build_nodepass_command(&b).unwrap());
}
