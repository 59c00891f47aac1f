use nodepass_gui::download::{ChunkAction, DownloadOutcome, DownloadProgress, DownloadSession,
    ProxyPlan, ProxySettings, build_proxy_url, proxy_failure_is_fatal, resolve_proxy_plan};
use nodepass_gui::errors::CoreError;

fn settings(
    enabled: bool,
    host: &str,
    port: &str,
    user: &str,
    pass: &str,
    ty: &str,
) -> ProxySettings {
    ProxySettings {
        enabled,
        host: host.to_string(),
        port: port.to_string(),
        username: user.to_string(),
        password: pass.to_string(),
        proxy_type: ty.to_string(),
    }
}

#[test]
fn proxy_url_without_credentials() {
    let p = settings(true, "proxy.example.com", "8080", "", "", "http");
    assert_eq!(build_proxy_url(&p), Some("http://proxy.example.com:8080".to_string()));
}

#[test]
fn proxy_url_with_credentials() {
    let p = settings(true, "h", "1080", "alice", "pw", "socks5");
    assert_eq!(build_proxy_url(&p), Some("socks5://alice:pw@h:1080".to_string()));
}

#[test]
fn disabled_or_incomplete_proxy_is_unusable() {
    assert_eq!(build_proxy_url(&settings(false, "h", "1", "", "", "http")), None);
    assert_eq!(build_proxy_url(&settings(true, "", "1", "", "", "http")), None);
    assert_eq!(build_proxy_url(&settings(true, "h", "", "", "", "http")), None);
}

#[test]
fn explicit_settings_take_precedence() {
    let p = settings(true, "h", "1", "", "", "http");
    match resolve_proxy_plan(Some(&p), Some("http://sys:1".to_string())) {
        ProxyPlan::UserProxy(u) => assert_eq!(u, "http://h:1"),
        _ => panic!("expected the explicit proxy"),
    }
}

#[test]
fn unusable_explicit_settings_mean_direct() {
    let p = settings(false, "h", "1", "", "", "http");
    assert!(matches!(
        resolve_proxy_plan(Some(&p), Some("http://sys:1".to_string())),
        ProxyPlan::Direct
    ));
}

#[test]
fn absent_settings_fall_back_to_system_proxy() {
    match resolve_proxy_plan(None, Some("http://sys:1".to_string())) {
        ProxyPlan::SystemProxy(u) => assert_eq!(u, "http://sys:1"),
        _ => panic!("expected the system proxy"),
    }
    assert!(matches!(resolve_proxy_plan(None, None), ProxyPlan::Direct));
}

#[test]
fn only_explicit_proxy_failures_are_fatal() {
    assert!(proxy_failure_is_fatal(&ProxyPlan::UserProxy("u".to_string())));
    assert!(!proxy_failure_is_fatal(&ProxyPlan::SystemProxy("u".to_string())));
    assert!(!proxy_failure_is_fatal(&ProxyPlan::Direct));
}

#[test]
fn progress_emits_on_percent_change() {
    let mut p = DownloadProgress::new(1000);
    let u = p.note_chunk(10).expect("one percent reached");
    assert_eq!(u.percent, 1);
    assert_eq!(u.downloaded, 10);
    assert_eq!(u.total, 1000);
    // A further chunk within the same percent stays silent.
    assert!(p.note_chunk(1).is_none());
}

#[test]
fn progress_emits_every_512_kib_within_one_percent() {
    // 100 MiB total: one percent is about 1 MiB, so a 600 KiB chunk stays
    // inside the current percent yet crosses the 512 KiB threshold.
    let total = 100 * 1024 * 1024;
    let mut p = DownloadProgress::new(total);
    let first = p.note_chunk(600 * 1024);
    assert!(first.is_some());
}

#[test]
fn unknown_total_emits_at_whole_mibs() {
    let mut p = DownloadProgress::new(0);
    assert!(p.note_chunk(1024 * 1024).is_some());
    assert!(p.note_chunk(3).is_none());
}

#[test]
fn cancellation_cleans_up_and_fails() {
    let mut s = DownloadSession::begin(1000);
    match s.on_chunk(false, 100) {
        ChunkAction::Write { .. } => {}
        ChunkAction::CancelCleanup => panic!("not cancelled yet"),
    }
    assert!(s.temp_exists);
    // Cancel() was issued: the next observation wins over the chunk.
    match s.on_chunk(true, 100) {
        ChunkAction::CancelCleanup => {}
        ChunkAction::Write { .. } => panic!("cancellation was ignored"),
    }
    assert!(!s.temp_exists);
    match &s.outcome {
        Some(DownloadOutcome::Failed(e)) => assert_eq!(*e, CoreError::Cancelled),
        _ => panic!("expected the cancelled outcome"),
    }
}

#[test]
fn stream_failure_removes_partial_file() {
    let mut s = DownloadSession::begin(0);
    s.on_chunk(false, 7);
    s.fail(CoreError::NetworkRequestFailed);
    assert!(!s.temp_exists);
    match &s.outcome {
        Some(DownloadOutcome::Failed(e)) => assert_eq!(*e, CoreError::NetworkRequestFailed),
        _ => panic!("expected the failed outcome"),
    }
}

#[test]
fn finish_removes_temp_file_either_way() {
    let mut ok = DownloadSession::begin(10);
    ok.finish(Ok("/install/nodepass.exe".to_string()));
    assert!(!ok.temp_exists);
    match &ok.outcome {
        Some(DownloadOutcome::Completed(p)) => assert_eq!(p, "/install/nodepass.exe"),
        _ => panic!("expected completion"),
    }

    let mut bad = DownloadSession::begin(10);
    bad.finish(Err(CoreError::ExecutableNotFoundInArchive));
    assert!(!bad.temp_exists);
    match &bad.outcome {
        Some(DownloadOutcome::Failed(e)) => assert_eq!(*e, CoreError::ExecutableNotFoundInArchive),
        _ => panic!("expected the failure to surface"),
    }
}

#[test]
fn error_descriptions_name_each_failure() {
    assert_eq!(CoreError::ExecutableNotFound.describe(), "worker executable not found");
    assert_eq!(CoreError::SpawnFailed.describe(), "failed to start process");
    assert_eq!(CoreError::TerminationFailed.describe(), "failed to stop process");
    assert_eq!(CoreError::UnsupportedArchiveFormat.describe(), "unsupported archive format");
    assert_eq!(
        CoreError::ExecutableNotFoundInArchive.describe(),
        "worker executable not found in archive"
    );
    assert_eq!(CoreError::ArchiveReadFailed.describe(), "failed to read archive");
    assert_eq!(CoreError::NetworkRequestFailed.describe(), "network request failed");
    assert_eq!(CoreError::HttpStatusError(404).describe(), "server returned an error status");
    assert_eq!(CoreError::FileIOFailed.describe(), "file operation failed");
    assert_eq!(CoreError::Cancelled.describe(), "download cancelled");
    assert_eq!(CoreError::ProxyConfigInvalid.describe(), "invalid proxy configuration");
}
