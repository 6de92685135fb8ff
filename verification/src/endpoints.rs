//! The inventory of backend endpoints exposed as MCP tools, and checks
//! over it: coverage counting and completeness of a tool list against the
//! inventory. Core tools are always available; tools whose name starts
//! with `adv_` are the advanced set.

use vstd::prelude::*;
use crate::strutil::{spec_starts_with, str_eq, str_starts_with};

verus! {

/// The canonical endpoint inventory: HTTP method, path, MCP tool name.
pub open spec fn spec_endpoints() -> Seq<(&'static str, &'static str, &'static str)> {
    seq![
        ("GET", "/api/projects", "list_projects"),
        ("POST", "/api/tasks", "create_task"),
        ("GET", "/api/tasks/{id}", "get_task"),
        ("GET", "/api/tasks", "list_tasks"),
        ("PUT", "/api/tasks/{id}", "update_task"),
        ("DELETE", "/api/tasks/{id}", "delete_task"),
        ("POST", "/api/task-attempts", "start_task_attempt"),
        ("POST", "/api/projects", "adv_create_project"),
        ("GET", "/api/projects/{id}", "adv_get_project"),
        ("PUT", "/api/projects/{id}", "adv_update_project"),
        ("DELETE", "/api/projects/{id}", "adv_delete_project"),
        ("POST", "/api/tasks/create-and-start", "adv_create_task_and_start"),
        ("GET", "/api/tasks/stream/ws", "adv_stream_tasks"),
        ("GET", "/api/task-attempts", "adv_list_task_attempts"),
        ("GET", "/api/task-attempts/{id}", "adv_get_task_attempt"),
        ("POST", "/api/task-attempts/{id}/follow-up", "adv_follow_up"),
        ("POST", "/api/task-attempts/{id}/stop", "adv_stop_task_attempt"),
        ("POST", "/api/task-attempts/{id}/merge", "adv_merge_task_attempt"),
        ("POST", "/api/task-attempts/{id}/push", "adv_push_task_attempt"),
        ("POST", "/api/task-attempts/{id}/rebase", "adv_rebase_task_attempt"),
        ("POST", "/api/task-attempts/{id}/pr", "adv_create_pr"),
        ("POST", "/api/task-attempts/{id}/pr/attach", "adv_attach_pr"),
        ("GET", "/api/task-attempts/{id}/branch-status", "adv_get_branch_status"),
        ("GET", "/api/task-attempts/{id}/diff/ws", "adv_stream_diff"),
        ("GET", "/api/task-attempts/{id}/draft", "adv_get_draft"),
        ("PUT", "/api/task-attempts/{id}/draft", "adv_save_draft"),
        ("DELETE", "/api/task-attempts/{id}/draft", "adv_delete_draft"),
        ("POST", "/api/task-attempts/{id}/draft/queue", "adv_set_draft_queue"),
        ("POST", "/api/task-attempts/{id}/replace-process", "adv_replace_process"),
        ("GET", "/api/task-attempts/{id}/commit-info", "adv_get_commit_info"),
        ("GET", "/api/task-attempts/{id}/commit-compare", "adv_compare_commit"),
        ("POST", "/api/task-attempts/{id}/start-dev-server", "adv_start_dev_server"),
        ("POST", "/api/task-attempts/{id}/open-editor", "adv_open_editor"),
        ("POST", "/api/task-attempts/{id}/delete-file", "adv_delete_file"),
        ("GET", "/api/task-attempts/{id}/children", "adv_get_children"),
        ("POST", "/api/task-attempts/{id}/conflicts/abort", "adv_abort_conflicts"),
        ("POST", "/api/task-attempts/{id}/change-target-branch", "adv_change_target_branch"),
        ("GET", "/api/execution-processes", "adv_list_processes"),
        ("GET", "/api/execution-processes/{id}", "adv_get_process"),
        ("POST", "/api/execution-processes/{id}/stop", "adv_stop_process"),
        ("POST", "/api/images", "adv_upload_image"),
        ("GET", "/api/images/{id}", "adv_get_image"),
        ("GET", "/api/filesystem/tree", "adv_get_filesystem_tree"),
        ("GET", "/api/filesystem/file", "adv_get_file"),
        ("GET", "/api/config", "adv_get_config"),
        ("PUT", "/api/config", "adv_update_config"),
        ("GET", "/api/drafts", "adv_list_drafts"),
        ("POST", "/api/drafts", "adv_create_draft"),
        ("GET", "/api/drafts/{id}", "adv_get_draft_by_id"),
        ("PUT", "/api/drafts/{id}", "adv_update_draft"),
        ("DELETE", "/api/drafts/{id}", "adv_delete_draft_by_id"),
        ("GET", "/api/containers", "adv_list_containers"),
        ("GET", "/api/containers/{id}", "adv_get_container"),
        ("GET", "/api/forge/config", "adv_get_forge_config"),
        ("PUT", "/api/forge/config", "adv_update_forge_config"),
        ("GET", "/api/forge/projects/{id}/settings", "adv_get_project_settings"),
        ("PUT", "/api/forge/projects/{id}/settings", "adv_update_project_settings"),
        ("GET", "/api/forge/omni/status", "adv_get_omni_status"),
        ("GET", "/api/forge/omni/instances", "adv_list_omni_instances"),
        ("POST", "/api/forge/omni/validate", "adv_validate_omni_config"),
        ("GET", "/api/forge/omni/notifications", "adv_list_omni_notifications"),
    ]
}

/// The endpoint inventory, as a value.
pub fn all_backend_endpoints() -> (r: Vec<(&'static str, &'static str, &'static str)>)
    ensures
        r@ == spec_endpoints(),
{
    let r: Vec<(&'static str, &'static str, &'static str)> = vec![
        ("GET", "/api/projects", "list_projects"),
        ("POST", "/api/tasks", "create_task"),
        ("GET", "/api/tasks/{id}", "get_task"),
        ("GET", "/api/tasks", "list_tasks"),
        ("PUT", "/api/tasks/{id}", "update_task"),
        ("DELETE", "/api/tasks/{id}", "delete_task"),
        ("POST", "/api/task-attempts", "start_task_attempt"),
        ("POST", "/api/projects", "adv_create_project"),
        ("GET", "/api/projects/{id}", "adv_get_project"),
        ("PUT", "/api/projects/{id}", "adv_update_project"),
        ("DELETE", "/api/projects/{id}", "adv_delete_project"),
        ("POST", "/api/tasks/create-and-start", "adv_create_task_and_start"),
        ("GET", "/api/tasks/stream/ws", "adv_stream_tasks"),
        ("GET", "/api/task-attempts", "adv_list_task_attempts"),
        ("GET", "/api/task-attempts/{id}", "adv_get_task_attempt"),
        ("POST", "/api/task-attempts/{id}/follow-up", "adv_follow_up"),
        ("POST", "/api/task-attempts/{id}/stop", "adv_stop_task_attempt"),
        ("POST", "/api/task-attempts/{id}/merge", "adv_merge_task_attempt"),
        ("POST", "/api/task-attempts/{id}/push", "adv_push_task_attempt"),
        ("POST", "/api/task-attempts/{id}/rebase", "adv_rebase_task_attempt"),
        ("POST", "/api/task-attempts/{id}/pr", "adv_create_pr"),
        ("POST", "/api/task-attempts/{id}/pr/attach", "adv_attach_pr"),
        ("GET", "/api/task-attempts/{id}/branch-status", "adv_get_branch_status"),
        ("GET", "/api/task-attempts/{id}/diff/ws", "adv_stream_diff"),
        ("GET", "/api/task-attempts/{id}/draft", "adv_get_draft"),
        ("PUT", "/api/task-attempts/{id}/draft", "adv_save_draft"),
        ("DELETE", "/api/task-attempts/{id}/draft", "adv_delete_draft"),
        ("POST", "/api/task-attempts/{id}/draft/queue", "adv_set_draft_queue"),
        ("POST", "/api/task-attempts/{id}/replace-process", "adv_replace_process"),
        ("GET", "/api/task-attempts/{id}/commit-info", "adv_get_commit_info"),
        ("GET", "/api/task-attempts/{id}/commit-compare", "adv_compare_commit"),
        ("POST", "/api/task-attempts/{id}/start-dev-server", "adv_start_dev_server"),
        ("POST", "/api/task-attempts/{id}/open-editor", "adv_open_editor"),
        ("POST", "/api/task-attempts/{id}/delete-file", "adv_delete_file"),
        ("GET", "/api/task-attempts/{id}/children", "adv_get_children"),
        ("POST", "/api/task-attempts/{id}/conflicts/abort", "adv_abort_conflicts"),
        ("POST", "/api/task-attempts/{id}/change-target-branch", "adv_change_target_branch"),
        ("GET", "/api/execution-processes", "adv_list_processes"),
        ("GET", "/api/execution-processes/{id}", "adv_get_process"),
        ("POST", "/api/execution-processes/{id}/stop", "adv_stop_process"),
        ("POST", "/api/images", "adv_upload_image"),
        ("GET", "/api/images/{id}", "adv_get_image"),
        ("GET", "/api/filesystem/tree", "adv_get_filesystem_tree"),
        ("GET", "/api/filesystem/file", "adv_get_file"),
        ("GET", "/api/config", "adv_get_config"),
        ("PUT", "/api/config", "adv_update_config"),
        ("GET", "/api/drafts", "adv_list_drafts"),
        ("POST", "/api/drafts", "adv_create_draft"),
        ("GET", "/api/drafts/{id}", "adv_get_draft_by_id"),
        ("PUT", "/api/drafts/{id}", "adv_update_draft"),
        ("DELETE", "/api/drafts/{id}", "adv_delete_draft_by_id"),
        ("GET", "/api/containers", "adv_list_containers"),
        ("GET", "/api/containers/{id}", "adv_get_container"),
        ("GET", "/api/forge/config", "adv_get_forge_config"),
        ("PUT", "/api/forge/config", "adv_update_forge_config"),
        ("GET", "/api/forge/projects/{id}/settings", "adv_get_project_settings"),
        ("PUT", "/api/forge/projects/{id}/settings", "adv_update_project_settings"),
        ("GET", "/api/forge/omni/status", "adv_get_omni_status"),
        ("GET", "/api/forge/omni/instances", "adv_list_omni_instances"),
        ("POST", "/api/forge/omni/validate", "adv_validate_omni_config"),
        ("GET", "/api/forge/omni/notifications", "adv_list_omni_notifications"),
    ];
    proof {
        assert(r@ =~= spec_endpoints());
    }
    r
}

/// Whether a tool name belongs to the advanced set.
pub open spec fn spec_is_advanced(name: &str) -> bool {
    spec_starts_with(name@, "adv_"@)
}

/// Core tools in the inventory prefix.
pub open spec fn spec_count_core(s: Seq<(&'static str, &'static str, &'static str)>) -> nat
    decreases s.len(),
{
    if s.len() == 0 {
        0
    } else {
        spec_count_core(s.drop_last()) + (if spec_is_advanced(s.last().2) {
            0nat
        } else {
            1nat
        })
    }
}

/// Coverage statistics over the inventory: total, core (always
/// available), advanced.
pub fn get_coverage_stats() -> (r: (usize, usize, usize))
    ensures
        r.0 == spec_endpoints().len(),
        r.1 == spec_count_core(spec_endpoints()),
        r.2 == r.0 - r.1,
        r.1 <= r.0,
{
    let endpoints = all_backend_endpoints();
    let n = endpoints.len();
    let mut core: usize = 0;
    let mut i: usize = 0;
    while i < n
        invariant
            n == spec_endpoints().len(),
            endpoints@ == spec_endpoints(),
            0 <= i <= n,
            core == spec_count_core(spec_endpoints().take(i as int)),
            core <= i,
        decreases n - i,
    {
        proof {
            assert(spec_endpoints().take(i as int + 1).drop_last() =~= spec_endpoints().take(
                i as int,
            ));
            assert(spec_endpoints().take(i as int + 1).last() == spec_endpoints()[i as int]);
        }
        if !str_starts_with(endpoints[i].2, "adv_") {
            core += 1;
        }
        i += 1;
    }
    proof {
        assert(spec_endpoints().take(n as int) =~= spec_endpoints());
    }
    (n, core, n - core)
}

/// Whether some string in the sequence reads `x`.
pub open spec fn spec_contains_str(s: Seq<&str>, x: Seq<char>) -> bool {
    exists|i: int| 0 <= i < s.len() && (#[trigger] s[i])@ == x
}

/// Whether some string in the sequence of owned strings reads `x`.
pub open spec fn spec_contains_string(s: Seq<String>, x: Seq<char>) -> bool {
    exists|i: int| 0 <= i < s.len() && (#[trigger] s[i])@ == x
}

fn slice_contains(haystack: &[&str], needle: &str) -> (r: bool)
    ensures
        r == spec_contains_str(haystack@, needle@),
{
    let n = haystack.len();
    let mut i: usize = 0;
    while i < n
        invariant
            n == haystack@.len(),
            0 <= i <= n,
            forall|j: int| 0 <= j < i ==> (#[trigger] haystack@[j])@ != needle@,
        decreases n - i,
    {
        if str_eq(haystack[i], needle) {
            return true;
        }
        i += 1;
    }
    false
}

fn strings_contain(haystack: &Vec<String>, needle: &str) -> (r: bool)
    ensures
        r == spec_contains_string(haystack@, needle@),
{
    let n = haystack.len();
    let mut i: usize = 0;
    while i < n
        invariant
            n == haystack@.len(),
            0 <= i <= n,
            forall|j: int| 0 <= j < i ==> (#[trigger] haystack@[j])@ != needle@,
        decreases n - i,
    {
        if str_eq(haystack[i].as_str(), needle) {
            return true;
        }
        i += 1;
    }
    false
}

/// Check a defined tool list against the inventory: success exactly when
/// every inventory name is defined; otherwise the set of missing names,
/// nonempty and without repetition.
pub fn verify_tool_completeness(defined_tools: &[&str]) -> (r: Result<(), Vec<String>>)
    ensures
        r is Ok <==> (forall|i: int|
            0 <= i < spec_endpoints().len() ==> spec_contains_str(
                defined_tools@,
                (#[trigger] spec_endpoints()[i]).2@,
            )),
        r matches Result::Err(missing) ==> {
            &&& missing@.len() > 0
            &&& (forall|i: int|
                0 <= i < missing@.len() ==> !spec_contains_str(
                    defined_tools@,
                    (#[trigger] missing@[i])@,
                ))
            &&& (forall|i: int|
                0 <= i < missing@.len() ==> (exists|j: int|
                    0 <= j < spec_endpoints().len() && (#[trigger] spec_endpoints()[j]).2@
                        == (#[trigger] missing@[i])@))
            &&& (forall|i: int, j: int|
                0 <= i < j < missing@.len() ==> (#[trigger] missing@[i])@ != (
                #[trigger] missing@[j])@)
        },
{
    let endpoints = all_backend_endpoints();
    let n = endpoints.len();
    let mut missing: Vec<String> = Vec::new();
    let mut i: usize = 0;
    while i < n
        invariant
            n == spec_endpoints().len(),
            endpoints@ == spec_endpoints(),
            0 <= i <= n,
            forall|j: int|
                0 <= j < i ==> (spec_contains_str(
                    defined_tools@,
                    (#[trigger] spec_endpoints()[j]).2@,
                ) || spec_contains_string(missing@, spec_endpoints()[j].2@)),
            forall|j: int|
                0 <= j < missing@.len() ==> !spec_contains_str(
                    defined_tools@,
                    (#[trigger] missing@[j])@,
                ),
            forall|j: int|
                0 <= j < missing@.len() ==> (exists|l: int|
                    0 <= l < spec_endpoints().len() && (#[trigger] spec_endpoints()[l]).2@ == (
                    #[trigger] missing@[j])@),
            forall|j: int, l: int|
                0 <= j < l < missing@.len() ==> (#[trigger] missing@[j])@ != (
                #[trigger] missing@[l])@,
        decreases n - i,
    {
        let name = endpoints[i].2;
        if !slice_contains(defined_tools, name) {
            if !strings_contain(&missing, name) {
                let ghost prev = missing@;
                missing.push(name.to_owned());
                proof {
                    assert(forall|j: int|
                        0 <= j < prev.len() ==> #[trigger] missing@[j] == prev[j]);
                    assert(missing@.last()@ == spec_endpoints()[i as int].2@);
                    assert forall|x: Seq<char>|
                        spec_contains_string(prev, x) implies spec_contains_string(
                        missing@,
                        x,
                    ) by {
                        let l = choose|l: int| 0 <= l < prev.len() && (#[trigger] prev[l])@ == x;
                        assert(missing@[l] == prev[l]);
                        assert(missing@[l]@ == x);
                    }
                }
            }
        }
        i += 1;
    }
    if missing.len() == 0 {
        proof {
            assert(forall|j: int|
                0 <= j < spec_endpoints().len() ==> spec_contains_str(
                    defined_tools@,
                    (#[trigger] spec_endpoints()[j]).2@,
                ));
        }
        Result::Ok(())
    } else {
        proof {
            assert(!spec_contains_str(defined_tools@, missing@[0]@));
        }
        Result::Err(missing)
    }
}

} // verus!
