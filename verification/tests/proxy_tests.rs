use nodepass_gui::proxy::{parse_proxy_override_output, parse_reg_proxy_output,
    parse_winhttp_proxy_output, resolve_system_proxy};

fn s(v: &str) -> Option<String> {
    Some(v.to_string())
}

#[test]
fn first_nonempty_environment_value_wins() {
    let r = resolve_system_proxy(s("http://a:1"), s("http://b:2"), None, None, None, false);
    assert_eq!(r, Some("http://a:1".to_string()));
    let r = resolve_system_proxy(s(""), s("http://b:2"), None, None, None, false);
    assert_eq!(r, Some("http://b:2".to_string()));
    let r = resolve_system_proxy(None, None, s("socks5://c:3"), None, None, false);
    assert_eq!(r, Some("socks5://c:3".to_string()));
}

#[test]
fn no_proxy_listing_the_host_or_wildcard_short_circuits() {
    let r = resolve_system_proxy(None, None, None, s("github.com"), s("http://os:1"), false);
    assert_eq!(r, None);
    let r = resolve_system_proxy(None, None, None, s("*"), s("http://os:1"), false);
    assert_eq!(r, None);
    // Another host in the list does not exclude the artifact host.
    let r = resolve_system_proxy(None, None, None, s("internal.test"), s("http://os:1"), false);
    assert_eq!(r, Some("http://os:1".to_string()));
}

#[test]
fn os_proxy_respects_its_own_bypass_list() {
    let r = resolve_system_proxy(None, None, None, None, s("http://os:1"), true);
    assert_eq!(r, None);
    let r = resolve_system_proxy(None, None, None, None, s("http://os:1"), false);
    assert_eq!(r, Some("http://os:1".to_string()));
}

#[test]
fn absence_of_signals_means_direct() {
    assert_eq!(resolve_system_proxy(None, None, None, None, None, false), None);
}

#[test]
fn winhttp_output_with_proxy() {
    let out = "Current WinHTTP settings:\n\n    Proxy Server(s) :  proxy.corp.example\n    Bypass List     :  (none)\n";
    assert_eq!(
        parse_winhttp_proxy_output(out),
        Some("http://proxy.corp.example".to_string())
    );
}

#[test]
fn winhttp_output_direct_access() {
    let out = "Current WinHTTP settings:\n\n    Direct access (no proxy server).\n";
    assert_eq!(parse_winhttp_proxy_output(out), None);
}

#[test]
fn winhttp_none_marker_is_no_proxy() {
    let out = "Proxy Server(s) : (none)\n";
    assert_eq!(parse_winhttp_proxy_output(out), None);
}

#[test]
fn winhttp_value_keeps_scheme_and_port() {
    let out = "Proxy Server(s) : https://p.example\n";
    assert_eq!(parse_winhttp_proxy_output(out), Some("https://p.example".to_string()));
    let out2 = "Proxy Server(s) :  proxy.corp.example:8080\n";
    assert_eq!(
        parse_winhttp_proxy_output(out2),
        Some("http://proxy.corp.example:8080".to_string())
    );
}

#[test]
fn winhttp_localized_marker_is_recognized() {
    let out = "\u{5f53}\u{524d} WinHTTP \u{8bbe}\u{7f6e}:\n\n    \u{4ee3}\u{7406}\u{670d}\u{52a1}\u{5668}:  proxy.local:3128\n";
    assert_eq!(parse_winhttp_proxy_output(out), Some("http://proxy.local:3128".to_string()));
}

#[test]
fn winhttp_localized_none_marker_is_no_proxy() {
    let out = "    \u{4ee3}\u{7406}\u{670d}\u{52a1}\u{5668}: (\u{65e0})\n";
    assert_eq!(parse_winhttp_proxy_output(out), None);
}

#[test]
fn winhttp_marker_without_colon_is_skipped() {
    assert_eq!(parse_winhttp_proxy_output("Proxy Server missing separator
"), None);
}

#[test]
fn registry_proxy_server_value_is_parsed() {
    let out = "HKEY_CURRENT_USER\\...\\Internet Settings\n    ProxyServer    REG_SZ    proxy.example\n";
    assert_eq!(parse_reg_proxy_output(out), Some("http://proxy.example".to_string()));
}

#[test]
fn registry_without_value_yields_nothing() {
    let out = "HKEY_CURRENT_USER\\...\\Internet Settings\n    ProxyEnable    REG_DWORD    0x0\n";
    assert_eq!(parse_reg_proxy_output(out), None);
}

#[test]
fn bypass_list_with_github_is_detected() {
    let out = "    ProxyOverride    REG_SZ    localhost;*.github.com;10.*\n";
    assert!(parse_proxy_override_output(out));
    let out2 = "    ProxyOverride    REG_SZ    <local>\n";
    assert!(parse_proxy_override_output(out2));
}

#[test]
fn bypass_list_without_github_is_not_detected() {
    let out = "    ProxyOverride    REG_SZ    localhost;10.*\n";
    assert!(!parse_proxy_override_output(out));
}
