use forge_notify::capture::ExecutionTransition;
use forge_notify::config::{ConfigResolver, OmniConfig, RecipientType};
use forge_notify::delivery::SendTextResponse;
use forge_notify::queue::{NotificationPayload, NotificationStore};
use forge_notify::status::NotificationStatus;
use forge_notify::worker::{process_next, AttemptInfo};

const ATTEMPT_ID: &str = "a2a8c8f0-1b2c-4d3e-8f90-123456789abc";
const PROJECT_ID: &str = "0f0e0d0c-0b0a-0908-0706-050403020100";

fn transition(execution_id: &str, old_status: &str, new_status: &str) -> ExecutionTransition {
    ExecutionTransition {
        execution_id: execution_id.to_string(),
        task_attempt_id: ATTEMPT_ID.to_string(),
        old_status: old_status.to_string(),
        new_status: new_status.to_string(),
        executor: "forge-agent".to_string(),
        branch: "feature/test".to_string(),
        project_id: PROJECT_ID.to_string(),
        exit_code: Some(0),
    }
}

fn pending_payload() -> NotificationPayload {
    NotificationPayload {
        execution_id: "exec-1".to_string(),
        task_attempt_id: Some(ATTEMPT_ID.to_string()),
        status: Some("completed".to_string()),
        executor: Some("forge-agent".to_string()),
        branch: Some("feature/test".to_string()),
        project_id: Some(PROJECT_ID.to_string()),
        exit_code: Some(0),
    }
}

fn attempt_rows() -> Vec<AttemptInfo> {
    vec![AttemptInfo {
        task_attempt_id: ATTEMPT_ID.to_string(),
        task_id: "11111111-2222-3333-4444-555555555555".to_string(),
        title: "Omni Notification Test".to_string(),
        project_id: Some(PROJECT_ID.to_string()),
        branch: Some("feature/test".to_string()),
        executor: Some("forge-agent".to_string()),
    }]
}

fn disabled_resolver() -> ConfigResolver {
    ConfigResolver {
        global: OmniConfig {
            enabled: false,
            host: None,
            api_key: None,
            instance: None,
            recipient: None,
            recipient_type: None,
        },
        overrides: Vec::new(),
    }
}

fn configured_resolver(host: Option<&str>) -> ConfigResolver {
    let mut resolver = disabled_resolver();
    resolver.overrides.push((
        PROJECT_ID.to_string(),
        OmniConfig {
            enabled: true,
            host: host.map(|h| h.to_string()),
            api_key: None,
            instance: Some("forge-instance".to_string()),
            recipient: Some("+15550001111".to_string()),
            recipient_type: Some(RecipientType::PhoneNumber),
        },
    ));
    resolver
}

fn success_response() -> Result<SendTextResponse, String> {
    Ok(SendTextResponse {
        success: true,
        message_id: Some("msg-123".to_string()),
        status: "queued".to_string(),
        error: None,
    })
}

#[test]
fn capture_fires_once_per_transition() {
    let mut store = NotificationStore::new();
    let ev = transition("exec-1", "running", "completed");

    assert!(store.capture(&ev, 1));
    assert_eq!(store.len(), 1);
    let rec = store.record(0);
    assert!(matches!(rec.status, NotificationStatus::Pending));
    assert_eq!(rec.kind, "execution_completed");
    let payload = rec.payload.as_ref().unwrap();
    assert_eq!(payload.execution_id, "exec-1");
    assert_eq!(payload.status, Some("completed".to_string()));

    // Replaying the very same transition is suppressed by the dedup guard.
    assert!(!store.capture(&ev, 2));
    // Re-applying the update once the row is already terminal does not
    // fire either: the old value is now inside the terminal set.
    assert!(!store.capture(&transition("exec-9", "completed", "completed"), 3));
    assert_eq!(store.len(), 1);
}

#[test]
fn capture_ignores_non_terminal_updates() {
    let mut store = NotificationStore::new();
    assert!(!store.capture(&transition("exec-1", "queued", "running"), 1));
    assert_eq!(store.len(), 0);
    // A different execution of the same attempt still captures.
    assert!(store.capture(&transition("exec-1", "running", "killed"), 2));
    assert!(store.capture(&transition("exec-2", "running", "failed"), 3));
    assert_eq!(store.len(), 2);
}

#[test]
fn claim_is_exclusive() {
    let mut store = NotificationStore::new();
    let id = store.enqueue("execution_completed".to_string(), Some(pending_payload()), 1);

    assert!(store.claim(id));
    // The record now stands `Processing`: every further claim observes
    // zero affected rows.
    assert!(!store.claim(id));
    assert!(!store.claim(id));
    assert!(matches!(store.record(0).status, NotificationStatus::Processing));
    // A claim of an unknown identifier affects nothing.
    assert!(!store.claim(id + 1));
}

#[test]
fn terminal_records_never_move_again() {
    let mut store = NotificationStore::new();
    let id = store.enqueue("execution_completed".to_string(), Some(pending_payload()), 1);
    assert!(store.claim(id));
    assert!(store.finalize_sent(id, "done".to_string(), 9));
    assert!(matches!(store.record(0).status, NotificationStatus::Sent));

    // No conditional write moves a terminal record anywhere.
    assert!(!store.claim(id));
    assert!(!store.finalize_failed(id, "late".to_string()));
    assert!(!store.finalize_skipped(id, "late".to_string()));
    assert!(!store.finalize_sent(id, "again".to_string(), 10));
    let rec = store.record(0);
    assert!(matches!(rec.status, NotificationStatus::Sent));
    assert_eq!(rec.message, "done");
    assert_eq!(rec.sent_at, Some(9));
}

#[test]
fn process_next_notification_marks_sent() {
    let mut store = NotificationStore::new();
    store.enqueue("execution_completed".to_string(), Some(pending_payload()), 1);

    let processed = process_next(
        &mut store,
        &configured_resolver(Some("http://forge.example")),
        &attempt_rows(),
        "http://forge.example",
        &success_response(),
        42,
    );
    assert!(processed);

    let rec = store.record(0);
    assert!(matches!(rec.status, NotificationStatus::Sent));
    let message = rec.message.clone();
    assert!(message.contains("Execution completed"));
    assert!(message.contains("feature/test"));
    assert!(message.contains("forge-agent"));
    assert_eq!(rec.sent_at, Some(42));
    assert!(rec.error.is_none());
}

#[test]
fn omni_notification_skips_when_disabled() {
    let mut store = NotificationStore::new();
    store.enqueue("execution_completed".to_string(), Some(pending_payload()), 1);

    // Hand in a transport error: a disabled scope never reaches the
    // delivery client, so the outcome must not depend on it.
    let processed = process_next(
        &mut store,
        &disabled_resolver(),
        &attempt_rows(),
        "http://forge.example",
        &Err("delivery client must not be invoked".to_string()),
        42,
    );
    assert!(processed);

    let rec = store.record(0);
    assert!(matches!(rec.status, NotificationStatus::Skipped));
    assert!(rec.error.as_ref().unwrap().contains("disabled"));
    assert!(rec.sent_at.is_none());
}

#[test]
fn omni_notification_requires_host_configuration() {
    let mut store = NotificationStore::new();
    store.enqueue("execution_completed".to_string(), Some(pending_payload()), 1);

    // Enabled but without a host: skipped with a reason, never failed —
    // an unconfigured scope is an expected condition.
    let processed = process_next(
        &mut store,
        &configured_resolver(None),
        &attempt_rows(),
        "http://forge.example",
        &Err("delivery client must not be invoked".to_string()),
        42,
    );
    assert!(processed);

    let rec = store.record(0);
    assert!(matches!(rec.status, NotificationStatus::Skipped));
    assert!(rec.error.as_ref().unwrap().contains("Omni host"));
}

#[test]
fn delivery_failure_marks_failed_without_retry() {
    let mut store = NotificationStore::new();
    store.enqueue("execution_completed".to_string(), Some(pending_payload()), 1);

    let failure = Ok(SendTextResponse {
        success: false,
        message_id: None,
        status: "error".to_string(),
        error: Some("instance unreachable".to_string()),
    });
    let processed = process_next(
        &mut store,
        &configured_resolver(Some("http://forge.example")),
        &attempt_rows(),
        "http://forge.example",
        &failure,
        42,
    );
    assert!(processed);

    let rec = store.record(0);
    assert!(matches!(rec.status, NotificationStatus::Failed));
    assert!(rec.error.as_ref().unwrap().contains("instance unreachable"));

    // A failed record is terminal: the next iteration finds an empty
    // queue and does not retry it.
    let processed = process_next(
        &mut store,
        &configured_resolver(Some("http://forge.example")),
        &attempt_rows(),
        "http://forge.example",
        &success_response(),
        43,
    );
    assert!(!processed);
    assert!(matches!(store.record(0).status, NotificationStatus::Failed));
}

#[test]
fn transport_error_marks_failed() {
    let mut store = NotificationStore::new();
    store.enqueue("execution_completed".to_string(), Some(pending_payload()), 1);

    let processed = process_next(
        &mut store,
        &configured_resolver(Some("http://forge.example")),
        &attempt_rows(),
        "http://forge.example",
        &Err("connection refused".to_string()),
        42,
    );
    assert!(processed);
    let rec = store.record(0);
    assert!(matches!(rec.status, NotificationStatus::Failed));
    assert_eq!(rec.error, Some("connection refused".to_string()));
}

#[test]
fn malformed_payload_marks_failed() {
    let mut store = NotificationStore::new();
    store.enqueue("execution_completed".to_string(), None, 1);

    let processed = process_next(
        &mut store,
        &configured_resolver(Some("http://forge.example")),
        &attempt_rows(),
        "http://forge.example",
        &success_response(),
        42,
    );
    assert!(processed);
    let rec = store.record(0);
    assert!(matches!(rec.status, NotificationStatus::Failed));
    assert!(rec.error.as_ref().unwrap().contains("missing metadata"));
}

#[test]
fn invalid_attempt_reference_marks_failed() {
    let mut store = NotificationStore::new();
    let mut payload = pending_payload();
    payload.task_attempt_id = Some("not-a-uuid".to_string());
    store.enqueue("execution_completed".to_string(), Some(payload), 1);

    let processed = process_next(
        &mut store,
        &configured_resolver(Some("http://forge.example")),
        &attempt_rows(),
        "http://forge.example",
        &success_response(),
        42,
    );
    assert!(processed);
    let rec = store.record(0);
    assert!(matches!(rec.status, NotificationStatus::Failed));
    assert!(rec.error.as_ref().unwrap().contains("invalid task_attempt_id UUID"));
}

#[test]
fn unknown_attempt_marks_failed() {
    let mut store = NotificationStore::new();
    store.enqueue("execution_completed".to_string(), Some(pending_payload()), 1);

    let processed = process_next(
        &mut store,
        &configured_resolver(Some("http://forge.example")),
        &Vec::new(),
        "http://forge.example",
        &success_response(),
        42,
    );
    assert!(processed);
    let rec = store.record(0);
    assert!(matches!(rec.status, NotificationStatus::Failed));
    assert!(rec.error.as_ref().unwrap().contains("task attempt not found"));
}

#[test]
fn empty_queue_reports_idle() {
    let mut store = NotificationStore::new();
    let processed = process_next(
        &mut store,
        &disabled_resolver(),
        &attempt_rows(),
        "http://forge.example",
        &success_response(),
        42,
    );
    assert!(!processed);
    assert_eq!(store.len(), 0);
}

#[test]
fn captured_transition_flows_to_sent() {
    let mut store = NotificationStore::new();
    assert!(store.capture(&transition("exec-1", "running", "completed"), 7));

    let processed = process_next(
        &mut store,
        &configured_resolver(Some("http://forge.example")),
        &attempt_rows(),
        "http://forge.example",
        &success_response(),
        8,
    );
    assert!(processed);
    let rec = store.record(0);
    assert!(matches!(rec.status, NotificationStatus::Sent));
    assert_eq!(
        rec.message,
        "✅ Execution completed\nBranch: feature/test\nExecutor: forge-agent"
    );
    assert_eq!(rec.created_at, 7);
    assert_eq!(rec.sent_at, Some(8));
}

#[test]
fn records_are_processed_oldest_first() {
    let mut store = NotificationStore::new();
    let mut first = pending_payload();
    first.execution_id = "exec-1".to_string();
    let mut second = pending_payload();
    second.execution_id = "exec-2".to_string();
    store.enqueue("execution_completed".to_string(), Some(first), 1);
    store.enqueue("execution_completed".to_string(), Some(second), 2);

    assert!(process_next(
        &mut store,
        &disabled_resolver(),
        &attempt_rows(),
        "http://forge.example",
        &success_response(),
        42,
    ));
    assert!(matches!(store.record(0).status, NotificationStatus::Skipped));
    assert!(matches!(store.record(1).status, NotificationStatus::Pending));

    assert!(process_next(
        &mut store,
        &disabled_resolver(),
        &attempt_rows(),
        "http://forge.example",
        &success_response(),
        43,
    ));
    assert!(matches!(store.record(1).status, NotificationStatus::Skipped));
}
