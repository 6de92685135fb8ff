//! Event capture: turning a committed status transition into a durable
//! queue record.
//!
//! The host store fires this once per update of an execution process's
//! status, inside the same transaction as the update itself: a failed
//! insert fails the transaction, because a lost capture is worse than a
//! failed state transition. The guard fires only on the first transition
//! into a terminal execution status, and a deduplication guard keyed by the
//! triggering execution's identifier suppresses a second record for the
//! same event even if the same update is replayed.

use vstd::prelude::*;
use crate::queue::{NotificationPayload, NotificationRecord, NotificationStore};
use crate::status::NotificationStatus;
use crate::strutil::str_eq;

verus! {

/// Terminal statuses of the upstream execution event: `completed`,
/// `failed`, `killed`.
pub open spec fn spec_exec_terminal(s: Seq<char>) -> bool {
    s == "completed"@ || s == "failed"@ || s == "killed"@
}

/// Whether an execution status word is terminal.
pub fn exec_status_is_terminal(s: &str) -> (r: bool)
    ensures
        r == spec_exec_terminal(s@),
{
    str_eq(s, "completed") || str_eq(s, "failed") || str_eq(s, "killed")
}

/// One observed update of an execution process's status, joined with the
/// rows the capture denormalizes from.
pub struct ExecutionTransition {
    /// Identifier of the execution process row that changed.
    pub execution_id: String,
    /// The owning attempt.
    pub task_attempt_id: String,
    /// Status before the update.
    pub old_status: String,
    /// Status after the update.
    pub new_status: String,
    /// Denormalized from the attempt row; empty when unknown there.
    pub executor: String,
    /// Denormalized from the attempt row; empty when unknown there.
    pub branch: String,
    /// The owning task's project: the notification's scope.
    pub project_id: String,
    pub exit_code: Option<i64>,
}

/// Whether some record already carries a payload for this execution.
pub open spec fn spec_has_execution(s: Seq<NotificationRecord>, execution_id: Seq<char>) -> bool {
    exists|i: int|
        0 <= i < s.len() && ((#[trigger] s[i]).payload matches Option::Some(p)
            && p.execution_id@ == execution_id)
}

/// How many records carry a payload for this execution.
pub open spec fn spec_execution_count(s: Seq<NotificationRecord>, execution_id: Seq<char>) -> nat
    decreases s.len(),
{
    if s.len() == 0 {
        0
    } else {
        spec_execution_count(s.drop_last(), execution_id) + (match s.last().payload {
            Option::Some(p) => if p.execution_id@ == execution_id {
                1nat
            } else {
                0nat
            },
            Option::None => 0nat,
        })
    }
}

/// The capture guard: fire only when the new status is terminal, the old
/// one was not, and no record for this execution exists yet.
pub open spec fn spec_capture_fires(
    s: Seq<NotificationRecord>,
    ev: ExecutionTransition,
) -> bool {
    &&& spec_exec_terminal(ev.new_status@)
    &&& !spec_exec_terminal(ev.old_status@)
    &&& !spec_has_execution(s, ev.execution_id@)
}

/// What the fired capture appends: a `Pending` record whose payload holds
/// the transition's facts.
pub open spec fn spec_captured_record(
    r: NotificationRecord,
    ev: ExecutionTransition,
    id: u64,
    now: u64,
) -> bool {
    &&& r.id == id
    &&& r.kind@ == "execution_completed"@
    &&& r.recipient@ == Seq::<char>::empty()
    &&& r.message@ == Seq::<char>::empty()
    &&& r.status == NotificationStatus::Pending
    &&& r.error is None
    &&& r.sent_at is None
    &&& r.created_at == now
    &&& r.payload matches Option::Some(p) && {
        &&& p.execution_id == ev.execution_id
        &&& p.task_attempt_id == Option::Some(ev.task_attempt_id)
        &&& p.status == Option::Some(ev.new_status)
        &&& p.executor == Option::Some(ev.executor)
        &&& p.branch == Option::Some(ev.branch)
        &&& p.project_id == Option::Some(ev.project_id)
        &&& p.exit_code == ev.exit_code
    }
}

impl NotificationStore {
    /// Whether some record's payload already names this execution.
    pub fn has_execution(&self, execution_id: &str) -> (r: bool)
        ensures
            r == spec_has_execution(self@, execution_id@),
    {
        let n = self.len();
        let mut i: usize = 0;
        while i < n
            invariant
                n == self@.len(),
                0 <= i <= n,
                forall|j: int| 0 <= j < i ==> !((#[trigger] self@[j]).payload matches Option::Some(
                    p,
                ) && p.execution_id@ == execution_id@),
            decreases n - i,
        {
            let rec = self.record(i);
            match &rec.payload {
                Option::Some(p) => {
                    if str_eq(p.execution_id.as_str(), execution_id) {
                        return true;
                    }
                },
                Option::None => {},
            }
            i += 1;
        }
        false
    }

    /// Observe one status transition and capture it if the guard allows:
    /// at most one `Pending` record per underlying completion event,
    /// whatever how often the same update is replayed.
    pub fn capture(&mut self, ev: &ExecutionTransition, now: u64) -> (fired: bool)
        requires
            old(self).wf(),
            old(self).spec_next_id() < u64::MAX,
        ensures
            final(self).wf(),
            fired == spec_capture_fires(old(self)@, *ev),
            !fired ==> final(self)@ == old(self)@ && final(self).spec_next_id() == old(
                self,
            ).spec_next_id(),
            fired ==> {
                &&& final(self)@.len() == old(self)@.len() + 1
                &&& (forall|i: int| 0 <= i < old(self)@.len() ==> #[trigger] final(self)@[i]
                    == old(self)@[i])
                &&& spec_captured_record(final(self)@.last(), *ev, old(self).spec_next_id(), now)
            },
            crate::queue::spec_forward_ok(old(self)@, final(self)@),
    {
        if !exec_status_is_terminal(ev.new_status.as_str()) {
            return false;
        }
        if exec_status_is_terminal(ev.old_status.as_str()) {
            return false;
        }
        if self.has_execution(ev.execution_id.as_str()) {
            return false;
        }
        let payload = NotificationPayload {
            execution_id: ev.execution_id.clone(),
            task_attempt_id: Option::Some(ev.task_attempt_id.clone()),
            status: Option::Some(ev.new_status.clone()),
            executor: Option::Some(ev.executor.clone()),
            branch: Option::Some(ev.branch.clone()),
            project_id: Option::Some(ev.project_id.clone()),
            exit_code: match ev.exit_code {
                Option::None => Option::None,
                Option::Some(c) => Option::Some(c),
            },
        };
        let kind: String = "execution_completed".to_owned();
        self.enqueue(kind, Option::Some(payload), now);
        true
    }
}

/// A record set holds no record for an execution exactly when its count
/// for that execution is zero.
pub proof fn lemma_execution_count_zero(s: Seq<NotificationRecord>, execution_id: Seq<char>)
    ensures
        spec_execution_count(s, execution_id) == 0 <==> !spec_has_execution(s, execution_id),
    decreases s.len(),
{
    if s.len() > 0 {
        lemma_execution_count_zero(s.drop_last(), execution_id);
        assert(forall|i: int| 0 <= i < s.len() - 1 ==> #[trigger] s[i] == s.drop_last()[i]);
        if spec_has_execution(s, execution_id) {
            let i = choose|i: int|
                0 <= i < s.len() && ((#[trigger] s[i]).payload matches Option::Some(p)
                    && p.execution_id@ == execution_id);
            if i < s.len() - 1 {
                assert(spec_has_execution(s.drop_last(), execution_id));
            }
        }
        if spec_has_execution(s.drop_last(), execution_id) {
            let i = choose|i: int|
                0 <= i < s.drop_last().len() && ((#[trigger] s.drop_last()[i]).payload
                    matches Option::Some(p) && p.execution_id@ == execution_id);
            assert(s[i] == s.drop_last()[i]);
            assert(spec_has_execution(s, execution_id));
        }
    }
}

/// No duplicate capture: start from a store holding no record for an
/// event, replay the same transition through the capture any number of
/// times — exactly one record for that event exists afterwards, created by
/// the first replay; every later one refuses to fire.
pub proof fn lemma_capture_exactly_once(
    pre: Seq<NotificationRecord>,
    mid: Seq<NotificationRecord>,
    post: Seq<NotificationRecord>,
    ev: ExecutionTransition,
    id: u64,
    now: u64,
    now2: u64,
)
    requires
        !spec_has_execution(pre, ev.execution_id@),
        spec_exec_terminal(ev.new_status@),
        !spec_exec_terminal(ev.old_status@),
        // the first replay fires and appends the captured record
        mid.len() == pre.len() + 1,
        forall|i: int| 0 <= i < pre.len() ==> #[trigger] mid[i] == pre[i],
        spec_captured_record(mid.last(), ev, id, now),
        // a second replay on the resulting store refuses to fire
        spec_capture_fires(mid, ev) ==> post.len() == mid.len() + 1 && spec_captured_record(
            post.last(),
            ev,
            id,
            now2,
        ),
        !spec_capture_fires(mid, ev) ==> post == mid,
    ensures
        spec_capture_fires(pre, ev),
        !spec_capture_fires(mid, ev),
        post == mid,
        spec_execution_count(post, ev.execution_id@) == 1,
{
    assert(mid.last().payload matches Option::Some(p) && p.execution_id@ == ev.execution_id@);
    assert(spec_has_execution(mid, ev.execution_id@));
    assert(mid.drop_last() =~= pre);
    lemma_execution_count_zero(pre, ev.execution_id@);
    assert(spec_execution_count(mid, ev.execution_id@) == 1);
}

} // verus!
