use std::path::PathBuf;

use chrome_cdp::discovery::{discover_port_in_log, discovery_failure, ProcessState};
use chrome_cdp::endpoint::{new_page_url, version_url};
use chrome_cdp::error::Error;
use chrome_cdp::launcher::{
    default_executable, fresh_launch_token, launch_args, os_info_string, profile_dir_name,
    resolve_executable, session_args, OsKind,
};

#[test]
fn test_chrome_path_linux() {
    // This test verifies the path construction logic
    let path = PathBuf::from("/usr/bin/google-chrome");
    assert!(path.starts_with("/usr/bin"));
    assert_eq!(default_executable(OsKind::Linux), "/usr/bin/google-chrome");
}

#[test]
fn test_chrome_path_windows() {
    // This test verifies the path construction logic
    // On Linux, verify the path format still parses correctly
    let path_str = "C:\\Program Files\\Google\\Chrome\\Application\\chrome.exe";
    let _path = PathBuf::from(path_str);
    // Just verify the path contains expected components
    assert!(path_str.contains("Chrome"));
    assert!(path_str.contains("chrome.exe"));
    assert_eq!(default_executable(OsKind::Windows), path_str);
}

#[test]
fn test_chrome_path_macos() {
    // This test verifies the path construction logic
    let path = PathBuf::from("/Applications/Google Chrome.app/Contents/MacOS/Google Chrome");
    assert!(path.starts_with("/Applications"));
    assert_eq!(
        default_executable(OsKind::MacOs),
        "/Applications/Google Chrome.app/Contents/MacOS/Google Chrome"
    );
}

#[test]
fn test_user_data_dir_construction() {
    let unique_id = fresh_launch_token();
    assert_eq!(unique_id.chars().count(), 36);
    let dir = profile_dir_name(&unique_id);
    assert!(dir.contains("chrome-"));
    assert_eq!(dir, format!("chrome-{}", unique_id));
}

#[test]
fn test_http_endpoint_url_construction() {
    let port = 9222u16;
    let url = format!("http://127.0.0.1:{}/json/version", port);
    assert_eq!(url, "http://127.0.0.1:9222/json/version");
    assert_eq!(version_url(port), "http://127.0.0.1:9222/json/version");
}

#[test]
fn test_new_page_url_construction() {
    let port = 9222u16;
    let url = format!("http://127.0.0.1:{}/json/new", port);
    assert_eq!(url, "http://127.0.0.1:9222/json/new");
    assert_eq!(new_page_url(port), "http://127.0.0.1:9222/json/new");
}

#[test]
fn test_stderr_port_parsing() {
    let line = "DevTools listening on ws://127.0.0.1:9222/devtools/browser";
    if let Some(port_str) = line.split("127.0.0.1:").nth(1) {
        if let Some(port_num) = port_str.split('/').next() {
            let port: u16 = port_num.parse().unwrap();
            assert_eq!(port, 9222);
        }
    }
    assert_eq!(discover_port_in_log(line), Some(9222));
}

#[test]
fn test_stderr_port_parsing_with_trailing_path() {
    let line = "DevTools listening on ws://127.0.0.1:12345/devtools/page/ABC";
    if let Some(port_str) = line.split("127.0.0.1:").nth(1) {
        if let Some(port_num) = port_str.split('/').next() {
            let port: u16 = port_num.parse().unwrap();
            assert_eq!(port, 12345);
        }
    }
    assert_eq!(discover_port_in_log(line), Some(12345));
}

#[test]
fn discovery_finds_first_announcing_line() {
    let log = "starting up\nsome noise\nDevTools listening on ws://127.0.0.1:9222/devtools/browser/abc\nlater line\n";
    assert_eq!(discover_port_in_log(log), Some(9222));
}

#[test]
fn discovery_isolates_digit_run_before_separator() {
    let log = "DevTools listening on ws://127.0.0.1:9222/devtools/page/ABC";
    assert_eq!(discover_port_in_log(log), Some(9222));
}

#[test]
fn discovery_ignores_lines_without_marker() {
    let log = "ws://127.0.0.1:9222/devtools/browser\nno marker here\n";
    assert_eq!(discover_port_in_log(log), None);
}

#[test]
fn discovery_rejects_ports_out_of_range() {
    let log = "DevTools listening on ws://127.0.0.1:65536/devtools/browser";
    assert_eq!(discover_port_in_log(log), None);
    let edge = "DevTools listening on ws://127.0.0.1:65535/devtools/browser";
    assert_eq!(discover_port_in_log(edge), Some(65535));
}

#[test]
fn discovery_rejects_empty_or_malformed_port_token() {
    assert_eq!(
        discover_port_in_log("DevTools listening on ws://127.0.0.1:/devtools"),
        None
    );
    assert_eq!(
        discover_port_in_log("DevTools listening on ws://127.0.0.1:92a2/devtools"),
        None
    );
}

#[test]
fn discovery_handles_carriage_returns() {
    let log = "noise\r\nDevTools listening on ws://127.0.0.1:4100\r\nrest\r\n";
    assert_eq!(discover_port_in_log(log), Some(4100));
}

#[test]
fn discovery_failure_reports_early_exit_with_status() {
    let err = discovery_failure(
        "linux x86_64 (unix)",
        "/usr/bin/google-chrome",
        "/tmp/chrome-x",
        Some("boom"),
        &ProcessState::ExitedEarly("exit status: 1".to_string()),
    );
    match err {
        Error::Browser(m) => {
            assert!(m.contains("Chrome process exited early with status: exit status: 1"));
            assert!(m.contains("=== Chrome stderr ===\nboom\n=== End of stderr ==="));
            assert!(m.contains("OS: linux x86_64 (unix)"));
            assert!(!m.contains("still running"));
        }
        other => panic!("expected a browser error, got {:?}", other),
    }
}

#[test]
fn discovery_failure_reports_live_but_unbound() {
    let err = discovery_failure(
        "linux x86_64 (unix)",
        "/usr/bin/google-chrome",
        "/tmp/chrome-x",
        None,
        &ProcessState::StillRunning,
    );
    match err {
        Error::Browser(m) => {
            assert!(m.contains("Chrome process is still running but debugging port was not found"));
            assert!(m.contains("(unreadable)"));
            assert!(!m.contains("exited early"));
        }
        other => panic!("expected a browser error, got {:?}", other),
    }
}

#[test]
fn test_error_message_formatting() {
    let os_info = os_info_string("linux", "x86_64", "unix");
    assert!(!os_info.is_empty());
    assert!(os_info.contains("linux"));
    assert_eq!(os_info, "linux x86_64 (unix)");
}

#[test]
fn resolve_executable_prefers_explicit_then_override() {
    assert_eq!(
        resolve_executable(Some("/custom/chrome".to_string()), Some("/env/chrome".to_string()), OsKind::Linux),
        "/custom/chrome"
    );
    assert_eq!(
        resolve_executable(None, Some("/env/chrome".to_string()), OsKind::Linux),
        "/env/chrome"
    );
    assert_eq!(
        resolve_executable(None, None, OsKind::Linux),
        "/usr/bin/google-chrome"
    );
}

#[test]
fn launch_args_hold_defaults_then_extras() {
    let extra = vec!["--disable-gpu".to_string()];
    let args = launch_args("/tmp/chrome-abc", true, &extra);
    assert_eq!(
        args,
        vec![
            "--remote-debugging-port=0".to_string(),
            "--user-data-dir=/tmp/chrome-abc".to_string(),
            "--password-store=basic".to_string(),
            "--no-first-run".to_string(),
            "--headless".to_string(),
            "--disable-gpu".to_string(),
        ]
    );
    let headful = launch_args("/tmp/chrome-abc", false, &Vec::new());
    assert_eq!(headful.len(), 4);
    assert!(!headful.contains(&"--headless".to_string()));
}

#[test]
fn session_args_add_sandbox_relaxation_in_ci() {
    let custom = vec!["--window-size=800,600".to_string()];
    let ci_args = session_args(true, &custom);
    assert_eq!(
        ci_args,
        vec![
            "--disable-blink-features=AutomationControlled".to_string(),
            "--disable-gpu".to_string(),
            "--no-sandbox".to_string(),
            "--disable-setuid-sandbox".to_string(),
            "--window-size=800,600".to_string(),
        ]
    );
    let plain = session_args(false, &custom);
    assert_eq!(
        plain,
        vec![
            "--disable-blink-features=AutomationControlled".to_string(),
            "--window-size=800,600".to_string(),
        ]
    );
}
