use forge_notify::endpoints::{all_backend_endpoints, get_coverage_stats, verify_tool_completeness};
use std::collections::HashSet;

#[test]
fn test_coverage_stats() {
    let (total, core, advanced) = get_coverage_stats();
    assert!(total > 0, "Should have endpoints defined");
    assert!(core > 0, "Should have core tools");
    assert!(advanced > 0, "Should have advanced tools");
    assert_eq!(total, core + advanced, "Total should equal core + advanced");
}

#[test]
fn test_no_duplicate_tool_names() {
    let endpoints = all_backend_endpoints();
    let tool_names: Vec<&str> = endpoints.iter().map(|(_, _, name)| *name).collect();

    let unique: HashSet<&str> = tool_names.iter().copied().collect();
    assert_eq!(tool_names.len(), unique.len(), "Tool names must be unique");
}

#[test]
fn completeness_accepts_full_inventory() {
    let endpoints = all_backend_endpoints();
    let defined: Vec<&str> = endpoints.iter().map(|(_, _, name)| *name).collect();
    assert!(verify_tool_completeness(&defined).is_ok());
}

#[test]
fn completeness_reports_missing_tools() {
    let endpoints = all_backend_endpoints();
    let defined: Vec<&str> = endpoints
        .iter()
        .map(|(_, _, name)| *name)
        .filter(|name| *name != "create_task")
        .collect();
    let missing = verify_tool_completeness(&defined).unwrap_err();
    assert_eq!(missing, vec!["create_task".to_string()]);
}
