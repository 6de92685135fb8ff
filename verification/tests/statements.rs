use forge_notify::migrate::split_statements;
use forge_notify::tasks::{
    forge_branch_name, list_tasks_response, TaskDetails, TaskFields, TaskSummary,
    TaskWithStatusFields,
};

#[test]
fn splits_simple_statements() {
    let sql = "CREATE TABLE a (x INT);\n\nINSERT INTO a VALUES (1);\n";
    assert_eq!(
        split_statements(sql),
        vec![
            "CREATE TABLE a (x INT);".to_string(),
            "INSERT INTO a VALUES (1);".to_string(),
        ]
    );
}

#[test]
fn drops_comments_and_blank_lines() {
    let sql = "-- header comment\n\n  CREATE TABLE a (\n    x INT\n  );\n-- trailing";
    assert_eq!(
        split_statements(sql),
        vec!["CREATE TABLE a (\nx INT\n);".to_string()]
    );
}

#[test]
fn keeps_trigger_bodies_whole() {
    let sql = "CREATE TRIGGER t\nAFTER UPDATE ON a\nBEGIN\nINSERT INTO b VALUES (1);\nEND;\nSELECT 1;";
    let statements = split_statements(sql);
    assert_eq!(statements.len(), 2);
    assert!(statements[0].starts_with("CREATE TRIGGER t"));
    assert!(statements[0].contains("INSERT INTO b VALUES (1);"));
    assert!(statements[0].ends_with("END;"));
    assert_eq!(statements[1], "SELECT 1;");
}

#[test]
fn keeps_unterminated_tail() {
    let sql = "PRAGMA foreign_keys = ON";
    assert_eq!(split_statements(sql), vec!["PRAGMA foreign_keys = ON".to_string()]);
    assert!(split_statements("").is_empty());
    assert!(split_statements("\n  \n-- only noise\n").is_empty());
}

fn sample_task() -> TaskFields {
    TaskFields {
        id: "t-1".to_string(),
        title: "Fix the build".to_string(),
        description: Some("It broke".to_string()),
        status: "todo".to_string(),
        created_at: "2024-01-01T00:00:00Z".to_string(),
        updated_at: "2024-01-02T00:00:00Z".to_string(),
        parent_task_attempt: Some("pa-1".to_string()),
    }
}

#[test]
fn task_details_carry_fields_over() {
    let details = TaskDetails::from_task(sample_task());
    assert_eq!(details.id, "t-1");
    assert_eq!(details.title, "Fix the build");
    assert_eq!(details.description, Some("It broke".to_string()));
    assert_eq!(details.status, "todo");
    assert_eq!(details.parent_task_attempt, Some("pa-1".to_string()));
    assert!(details.has_in_progress_attempt.is_none());
    assert!(details.has_merged_attempt.is_none());
    assert!(details.last_attempt_failed.is_none());
}

#[test]
fn task_summary_exposes_attempt_standing() {
    let summary = TaskSummary::from_task_with_status(TaskWithStatusFields {
        task: sample_task(),
        has_in_progress_attempt: true,
        has_merged_attempt: false,
        last_attempt_failed: true,
    });
    assert_eq!(summary.id, "t-1");
    assert_eq!(summary.has_in_progress_attempt, Some(true));
    assert_eq!(summary.has_merged_attempt, Some(false));
    assert_eq!(summary.last_attempt_failed, Some(true));

    let listing = list_tasks_response(vec![summary], "p-1".to_string(), None, 50);
    assert_eq!(listing.count, 1);
    assert_eq!(listing.project_id, "p-1");
    assert!(listing.applied_filters.status.is_none());
    assert_eq!(listing.applied_filters.limit, 50);
}

#[test]
fn forge_branch_prefix_format() {
    let branch = forge_branch_name("ab12cd34", "fix-the-build");
    assert_eq!(branch, "forge/ab12cd34-fix-the-build");
    assert!(branch.starts_with("forge/"));

    // Distinct attempt identifiers give distinct branch names.
    let other = forge_branch_name("ef56ab78", "fix-the-build");
    assert_ne!(branch, other);
}
