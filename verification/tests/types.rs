use forge_notify::config::{effective_config, ConfigResolver, OmniConfig, RecipientType};
use forge_notify::delivery::{build_send_request, prepare_task_notification};
use forge_notify::instance::{OmniInstance, RawEvolutionStatus, RawOmniInstance};
use forge_notify::message::format_status_summary;

fn blank_config() -> OmniConfig {
    OmniConfig {
        enabled: false,
        host: None,
        api_key: None,
        instance: None,
        recipient: None,
        recipient_type: None,
    }
}

#[test]
fn test_omni_config_defaults() {
    let config = OmniConfig {
        enabled: false,
        host: Some("https://omni.example.com".to_string()),
        api_key: Some("secret-key".to_string()),
        instance: None,
        recipient: None,
        recipient_type: None,
    };

    assert!(!config.enabled);
    assert_eq!(config.host, Some("https://omni.example.com".to_string()));
    assert!(config.instance.is_none());
    assert!(config.recipient.is_none());
    assert!(config.recipient_type.is_none());
}

#[test]
fn test_raw_instance_conversion() {
    let raw = RawOmniInstance {
        name: "felipe0008".to_string(),
        channel_type: "".to_string(),
        profile_name: Some("Namastex Labs".to_string()),
        is_active: Some(true),
        evolution_status: Some(RawEvolutionStatus {
            state: Some("open".to_string()),
            error: None,
        }),
    };

    let instance: OmniInstance = OmniInstance::from(raw);
    assert_eq!(instance.instance_name, "felipe0008");
    assert_eq!(instance.channel_type, "unknown");
    assert_eq!(instance.display_name, "Namastex Labs");
    assert_eq!(instance.status, "open");
    assert!(instance.is_healthy);

    let raw = RawOmniInstance {
        name: "discord-bot".to_string(),
        channel_type: "discord".to_string(),
        profile_name: None,
        is_active: Some(false),
        evolution_status: None,
    };

    let instance: OmniInstance = OmniInstance::from(raw);
    assert_eq!(instance.display_name, "discord-bot");
    assert_eq!(instance.status, "inactive");
    assert!(!instance.is_healthy);
}

#[test]
fn status_summary_includes_branch_and_executor() {
    let summary = format_status_summary("completed", "forge-agent", "feature/auth");
    assert!(summary.contains("forge-agent"));
    assert!(summary.contains("feature/auth"));
    assert!(summary.starts_with("✅"));
}

#[test]
fn partial_override_merges_fieldwise() {
    let global = OmniConfig {
        enabled: true,
        host: Some("https://global.example".to_string()),
        api_key: Some("global-key".to_string()),
        instance: Some("global-instance".to_string()),
        recipient: Some("+15550001111".to_string()),
        recipient_type: Some(RecipientType::PhoneNumber),
    };
    let scoped = OmniConfig {
        enabled: true,
        host: Some("https://scoped.example".to_string()),
        api_key: None,
        instance: None,
        recipient: None,
        recipient_type: None,
    };

    let merged = effective_config(&global, Some(&scoped));
    assert_eq!(merged.host, Some("https://scoped.example".to_string()));
    assert_eq!(merged.api_key, Some("global-key".to_string()));
    assert_eq!(merged.recipient, Some("+15550001111".to_string()));
    assert!(matches!(merged.recipient_type, Some(RecipientType::PhoneNumber)));
    assert!(merged.enabled);
}

#[test]
fn missing_scope_falls_back_to_global() {
    let mut global = blank_config();
    global.enabled = true;
    global.host = Some("https://global.example".to_string());
    let resolver = ConfigResolver {
        global,
        overrides: Vec::new(),
    };

    let resolved = resolver.resolve(Some("0f0e0d0c-0b0a-0908-0706-050403020100"));
    assert!(resolved.enabled);
    assert_eq!(resolved.host, Some("https://global.example".to_string()));

    let resolved = resolver.resolve(None);
    assert!(resolved.enabled);
}

#[test]
fn send_request_addressing_modes() {
    let text = "hello".to_string();
    let req = build_send_request(
        &"+15550001111".to_string(),
        &Some(RecipientType::PhoneNumber),
        text.clone(),
    );
    assert_eq!(req.phone_number, Some("+15550001111".to_string()));
    assert!(req.user_id.is_none());
    assert_eq!(req.text, "hello");

    let req = build_send_request(&"user-9".to_string(), &Some(RecipientType::UserId), text.clone());
    assert_eq!(req.user_id, Some("user-9".to_string()));
    assert!(req.phone_number.is_none());

    // No configured addressing mode defaults to phone-number addressing.
    let req = build_send_request(&"+15550002222".to_string(), &None, text);
    assert_eq!(req.phone_number, Some("+15550002222".to_string()));
    assert!(req.user_id.is_none());
}

#[test]
fn prepare_notification_paths() {
    let mut config = blank_config();
    let prepared = prepare_task_notification(&config, "T", "done", None);
    assert!(matches!(prepared, Ok(None)));

    config.enabled = true;
    let err = prepare_task_notification(&config, "T", "done", None).unwrap_err();
    assert!(err.contains("instance"));

    config.instance = Some("inst-1".to_string());
    let err = prepare_task_notification(&config, "T", "done", None).unwrap_err();
    assert!(err.contains("recipient"));

    config.recipient = Some("+15550001111".to_string());
    let (instance, req) = prepare_task_notification(
        &config,
        "My Task",
        "✅ Completed",
        Some("http://forge.example/projects/p/tasks/t"),
    )
    .unwrap()
    .unwrap();
    assert_eq!(instance, "inst-1");
    assert_eq!(
        req.text,
        "🎯 Task Complete: My Task\n\nStatus: ✅ Completed\nURL: http://forge.example/projects/p/tasks/t"
    );
    assert_eq!(req.phone_number, Some("+15550001111".to_string()));
}
