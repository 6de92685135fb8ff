//! Formatting of the notification text.
//!
//! A short status summary is derived from the raw execution status word
//! (the three known terminal words get a glyph and a human phrase, any
//! other word passes through), followed by branch and executor lines; the
//! full message adds the task title and a deep link into the orchestration
//! UI, built from a public base URL with host/port fallbacks.

use vstd::prelude::*;
use vstd::string::StringExecFns;
use crate::strutil::{spec_trim_trailing_slashes, str_eq, trim_trailing_slashes};

verus! {

/// The headline for a raw execution status word.
pub open spec fn spec_status_headline(status: Seq<char>) -> Seq<char> {
    if status == "completed"@ {
        "✅ Execution completed"@
    } else if status == "failed"@ {
        "❌ Execution failed"@
    } else if status == "killed"@ {
        "🛑 Execution cancelled"@
    } else {
        status
    }
}

/// The status summary: headline, branch line, executor line.
pub open spec fn spec_status_summary(
    status: Seq<char>,
    executor: Seq<char>,
    branch: Seq<char>,
) -> Seq<char> {
    spec_status_headline(status) + "\nBranch: "@ + branch + "\nExecutor: "@ + executor
}

/// Derive the short status summary for a record: a glyph headline for
/// `completed`, `failed` and `killed`, the raw word for anything else,
/// then the branch and the executor, one line each.
pub fn format_status_summary(status: &str, executor: &str, branch: &str) -> (r: String)
    ensures
        r@ == spec_status_summary(status@, executor@, branch@),
{
    let mut out: String;
    if str_eq(status, "completed") {
        out = "✅ Execution completed".to_owned();
    } else if str_eq(status, "failed") {
        out = "❌ Execution failed".to_owned();
    } else if str_eq(status, "killed") {
        out = "🛑 Execution cancelled".to_owned();
    } else {
        out = status.to_owned();
    }
    out.append("\nBranch: ");
    out.append(branch);
    out.append("\nExecutor: ");
    out.append(executor);
    out
}

/// The deep link back into the orchestration UI for a task.
pub open spec fn spec_task_url(
    base_url: Seq<char>,
    project_id: Seq<char>,
    task_id: Seq<char>,
) -> Seq<char> {
    base_url + "/projects/"@ + project_id + "/tasks/"@ + task_id
}

/// Build the deep link for a task under a scope.
pub fn build_task_url(base_url: &str, project_id: &str, task_id: &str) -> (r: String)
    ensures
        r@ == spec_task_url(base_url@, project_id@, task_id@),
{
    let mut out: String = base_url.to_owned();
    out.append("/projects/");
    out.append(project_id);
    out.append("/tasks/");
    out.append(task_id);
    out
}

/// The base URL the deep link starts with: a configured public base URL
/// with trailing slashes removed, else `http://host:port` from the
/// environment's host and port with `127.0.0.1` and `8887` as defaults.
pub open spec fn spec_base_url(
    public_base: Option<Seq<char>>,
    host: Option<Seq<char>>,
    port: Option<Seq<char>>,
) -> Seq<char> {
    match public_base {
        Option::Some(u) => spec_trim_trailing_slashes(u),
        Option::None => {
            let h = match host {
                Option::Some(h) => h,
                Option::None => "127.0.0.1"@,
            };
            let p = match port {
                Option::Some(p) => p,
                Option::None => "8887"@,
            };
            "http://"@ + h + ":"@ + p
        },
    }
}

/// Build the base URL from what the environment offers.
pub fn base_url_from_parts(
    public_base: Option<&str>,
    host: Option<&str>,
    port: Option<&str>,
) -> (r: String)
    ensures
        r@ == spec_base_url(
            (match public_base {
                Option::Some(u) => Option::Some(u@),
                Option::None => Option::None,
            }),
            (match host {
                Option::Some(h) => Option::Some(h@),
                Option::None => Option::None,
            }),
            (match port {
                Option::Some(p) => Option::Some(p@),
                Option::None => Option::None,
            }),
        ),
{
    match public_base {
        Option::Some(u) => trim_trailing_slashes(u),
        Option::None => {
            let mut out: String = "http://".to_owned();
            match host {
                Option::Some(h) => out.append(h),
                Option::None => out.append("127.0.0.1"),
            }
            out.append(":");
            match port {
                Option::Some(p) => out.append(p),
                Option::None => out.append("8887"),
            }
            out
        },
    }
}

/// The full message handed to the delivery client: title, status summary
/// and the deep link.
pub open spec fn spec_task_message(
    title: Seq<char>,
    status_text: Seq<char>,
    url: Option<Seq<char>>,
) -> Seq<char> {
    "🎯 Task Complete: "@ + title + "\n\nStatus: "@ + status_text + "\n"@ + (match url {
        Option::Some(u) => "URL: "@ + u,
        Option::None => Seq::<char>::empty(),
    })
}

/// Render the full notification message.
pub fn format_task_message(title: &str, status_text: &str, url: Option<&str>) -> (r: String)
    ensures
        r@ == spec_task_message(
            title@,
            status_text@,
            (match url {
                Option::Some(u) => Option::Some(u@),
                Option::None => Option::None,
            }),
        ),
{
    let mut out: String = "🎯 Task Complete: ".to_owned();
    out.append(title);
    out.append("\n\nStatus: ");
    out.append(status_text);
    out.append("\n");
    match url {
        Option::Some(u) => {
            out.append("URL: ");
            out.append(u);
        },
        Option::None => {},
    }
    out
}

} // verus!
