use forge_notify::assets::{config_path, profiles_path};
use forge_notify::ids::is_valid_uuid;
use forge_notify::ports::parse_port;
use forge_notify::message::{
    base_url_from_parts, build_task_url, format_status_summary, format_task_message,
};
use forge_notify::strutil::{is_blank, trim_ascii, trim_trailing_slashes};

#[test]
fn status_summary_exact_values() {
    assert_eq!(
        format_status_summary("completed", "agent-1", "feature/x"),
        "✅ Execution completed\nBranch: feature/x\nExecutor: agent-1"
    );
    assert_eq!(
        format_status_summary("failed", "agent-1", "feature/x"),
        "❌ Execution failed\nBranch: feature/x\nExecutor: agent-1"
    );
    assert_eq!(
        format_status_summary("killed", "agent-1", "feature/x"),
        "🛑 Execution cancelled\nBranch: feature/x\nExecutor: agent-1"
    );
    // Any other status word passes through untouched.
    assert_eq!(
        format_status_summary("paused", "agent-1", "feature/x"),
        "paused\nBranch: feature/x\nExecutor: agent-1"
    );
}

#[test]
fn task_url_shape() {
    assert_eq!(
        build_task_url("http://forge.example", "p-1", "t-1"),
        "http://forge.example/projects/p-1/tasks/t-1"
    );
}

#[test]
fn base_url_prefers_public_base() {
    assert_eq!(
        base_url_from_parts(Some("http://forge.example///"), Some("h"), Some("1")),
        "http://forge.example"
    );
    assert_eq!(
        base_url_from_parts(None, Some("0.0.0.0"), Some("3001")),
        "http://0.0.0.0:3001"
    );
    assert_eq!(base_url_from_parts(None, None, None), "http://127.0.0.1:8887");
}

#[test]
fn task_message_shape() {
    assert_eq!(
        format_task_message("T", "S", Some("http://u")),
        "🎯 Task Complete: T\n\nStatus: S\nURL: http://u"
    );
    assert_eq!(format_task_message("T", "S", None), "🎯 Task Complete: T\n\nStatus: S\n");
}

#[test]
fn uuid_validation_accepts_known_shapes() {
    assert!(is_valid_uuid("67e55044-10b1-426f-9247-bb680e5fe0c8"));
    assert!(is_valid_uuid("67e5504410b1426f9247bb680e5fe0c8"));
    assert!(is_valid_uuid("{67e55044-10b1-426f-9247-bb680e5fe0c8}"));
    assert!(is_valid_uuid("urn:uuid:67e55044-10b1-426f-9247-bb680e5fe0c8"));
    assert!(is_valid_uuid("67E55044-10B1-426F-9247-BB680E5FE0C8"));
}

#[test]
fn uuid_validation_rejects_malformed_input() {
    assert!(!is_valid_uuid(""));
    assert!(!is_valid_uuid("not-a-uuid"));
    assert!(!is_valid_uuid("67e55044-10b1-426f-9247-bb680e5fe0c"));
    assert!(!is_valid_uuid("67e55044x10b1x426fx9247xbb680e5fe0c8"));
    assert!(!is_valid_uuid("g7e55044-10b1-426f-9247-bb680e5fe0c8"));
}

#[test]
fn asset_paths_append_file_names() {
    assert_eq!(config_path("/home/user/.forge"), "/home/user/.forge/config.json");
    assert_eq!(profiles_path("/home/user/.forge"), "/home/user/.forge/profiles.json");
}

#[test]
fn port_parsing() {
    assert_eq!(parse_port("8887"), Some(8887));
    assert_eq!(parse_port("  3001 "), Some(3001));
    assert_eq!(parse_port("+80"), Some(80));
    assert_eq!(parse_port("0"), Some(0));
    assert_eq!(parse_port("65535"), Some(65535));
    assert_eq!(parse_port("65536"), None);
    assert_eq!(parse_port("123456789"), None);
    assert_eq!(parse_port(""), None);
    assert_eq!(parse_port("+"), None);
    assert_eq!(parse_port("-1"), None);
    assert_eq!(parse_port("80a"), None);
    assert_eq!(parse_port("8 0"), None);
}

#[test]
fn blank_and_trim_helpers() {
    assert!(is_blank(""));
    assert!(is_blank(" \t\r\n"));
    assert!(!is_blank(" x "));
    assert_eq!(trim_ascii("  spaced out \t"), "spaced out");
    assert_eq!(trim_ascii("\r\n"), "");
    assert_eq!(trim_trailing_slashes("http://a//"), "http://a");
    assert_eq!(trim_trailing_slashes("///"), "");
}
