//! The queue worker's decisions: one iteration takes the oldest pending
//! record from claim to terminal status.
//!
//! The worker validates the captured payload, resolves the effective
//! configuration for the record's scope, and either skips (delivery
//! disabled or not configured for the scope — an expected condition, not
//! an error), fails (a malformed payload, or the delivery client's
//! refusal), or sends. The delivery call itself is the host's: it happens
//! strictly between the claim and the finalize, and its result is handed
//! back in as a value, so every decision here is verified for every
//! possible delivery result. A failed record is terminal; there is no
//! automatic retry.

use vstd::prelude::*;
use crate::config::{ConfigResolver, OmniConfig};
use crate::delivery::{spec_request_shape, build_send_request, SendTextRequest, SendTextResponse};
use crate::ids::{is_valid_uuid, spec_uuid_valid_chars};
use crate::message::{
    build_task_url,
    format_status_summary,
    format_task_message,
    spec_status_summary,
    spec_task_message,
    spec_task_url,
};
use crate::queue::{
    clone_opt_payload,
    spec_first_pending,
    spec_forward_ok,
    lemma_first_pending,
    lemma_forward_ok_trans,
    lemma_index_of_unique,
    NotificationPayload,
    NotificationRecord,
    NotificationStore,
};
use crate::status::NotificationStatus;
use crate::strutil::{clone_opt_string, str_eq};

verus! {

/// One attempt row as the worker re-reads it from the orchestration
/// store, joined with its owning task.
pub struct AttemptInfo {
    pub task_attempt_id: String,
    pub task_id: String,
    pub title: String,
    pub project_id: Option<String>,
    pub branch: Option<String>,
    pub executor: Option<String>,
}

impl Clone for AttemptInfo {
    fn clone(&self) -> (res: Self)
        ensures
            res == *self,
    {
        AttemptInfo {
            task_attempt_id: self.task_attempt_id.clone(),
            task_id: self.task_id.clone(),
            title: self.title.clone(),
            project_id: clone_opt_string(&self.project_id),
            branch: clone_opt_string(&self.branch),
            executor: clone_opt_string(&self.executor),
        }
    }
}

/// The first attempt row carrying the given identifier.
pub open spec fn spec_lookup_attempt(s: Seq<AttemptInfo>, id: Seq<char>) -> Option<AttemptInfo>
    decreases s.len(),
{
    if s.len() == 0 {
        Option::None
    } else if s[0].task_attempt_id@ == id {
        Option::Some(s[0])
    } else {
        spec_lookup_attempt(s.skip(1), id)
    }
}

/// Find the attempt row for an identifier.
pub fn lookup_attempt(attempts: &Vec<AttemptInfo>, id: &str) -> (r: Option<AttemptInfo>)
    ensures
        (match r {
            Option::None => spec_lookup_attempt(attempts@, id@) is None,
            Option::Some(a) => spec_lookup_attempt(attempts@, id@) == Option::Some(a),
        }),
{
    let n = attempts.len();
    let mut i: usize = 0;
    proof {
        assert(attempts@.skip(0) =~= attempts@);
    }
    while i < n
        invariant
            n == attempts@.len(),
            0 <= i <= n,
            spec_lookup_attempt(attempts@, id@) == spec_lookup_attempt(
                attempts@.skip(i as int),
                id@,
            ),
        decreases n - i,
    {
        proof {
            assert(attempts@.skip(i as int)[0] == attempts@[i as int]);
            assert(attempts@.skip(i as int).skip(1) =~= attempts@.skip(i as int + 1));
        }
        if str_eq(attempts[i].task_attempt_id.as_str(), id) {
            return Option::Some(attempts[i].clone());
        }
        i += 1;
    }
    Option::None
}

/// What validating a payload yields, at the specification level.
pub enum PayloadCheck {
    Rejected { error: Seq<char> },
    Accepted {
        scope: Seq<char>,
        status: Seq<char>,
        branch: Seq<char>,
        executor: Seq<char>,
        title: Seq<char>,
        task_id: Seq<char>,
    },
}

/// The captured field when present, else the re-read row's, else the
/// given default.
pub open spec fn spec_fallback(
    captured: Option<String>,
    row: Option<String>,
    default: Seq<char>,
) -> Seq<char> {
    match captured {
        Option::Some(v) => v@,
        Option::None => match row {
            Option::Some(v) => v@,
            Option::None => default,
        },
    }
}

/// The scope a record resolves under: the payload's project when it names
/// a valid one, else the attempt row's, else an error.
pub open spec fn spec_scope_of(p: NotificationPayload, att: AttemptInfo) -> Result<
    Seq<char>,
    Seq<char>,
> {
    match p.project_id {
        Option::Some(pid) => if spec_uuid_valid_chars(pid@) {
            Result::Ok(pid@)
        } else {
            Result::Err("invalid project_id UUID: "@ + pid@)
        },
        Option::None => match att.project_id {
            Option::Some(apid) => Result::Ok(apid@),
            Option::None => Result::Err("missing project_id in database row"@),
        },
    }
}

/// Payload validation: a record without a payload, without the attempt
/// reference or the status, with an attempt reference that is no UUID, or
/// whose attempt row cannot be found, is rejected with the exact error
/// below; otherwise the scope, status, branch, executor, title and task
/// are fixed, with branch and executor falling back from the payload to
/// the row to `unknown`.
pub open spec fn spec_validated(
    p_opt: Option<NotificationPayload>,
    attempts: Seq<AttemptInfo>,
) -> PayloadCheck {
    match p_opt {
        Option::None => PayloadCheck::Rejected {
            error: "missing metadata for omni notification"@,
        },
        Option::Some(p) => match p.task_attempt_id {
            Option::None => PayloadCheck::Rejected { error: "metadata missing task_attempt_id"@ },
            Option::Some(aid) => if !spec_uuid_valid_chars(aid@) {
                PayloadCheck::Rejected { error: "invalid task_attempt_id UUID: "@ + aid@ }
            } else {
                match p.status {
                    Option::None => PayloadCheck::Rejected { error: "metadata missing status"@ },
                    Option::Some(st) => match spec_lookup_attempt(attempts, aid@) {
                        Option::None => PayloadCheck::Rejected {
                            error: "task attempt not found for omni notification"@,
                        },
                        Option::Some(att) => match spec_scope_of(p, att) {
                            Result::Err(e) => PayloadCheck::Rejected { error: e },
                            Result::Ok(scope) => PayloadCheck::Accepted {
                                scope,
                                status: st@,
                                branch: spec_fallback(p.branch, att.branch, "unknown"@),
                                executor: spec_fallback(p.executor, att.executor, "unknown"@),
                                title: att.title@,
                                task_id: att.task_id@,
                            },
                        },
                    },
                }
            },
        },
    }
}

/// The validated facts, as values.
pub struct ValidatedEvent {
    pub scope: String,
    pub status: String,
    pub branch: String,
    pub executor: String,
    pub title: String,
    pub task_id: String,
}

/// The exec validation result agrees with the specification's.
pub open spec fn validated_matches(ev: ValidatedEvent, v: PayloadCheck) -> bool {
    v matches PayloadCheck::Accepted { scope, status, branch, executor, title, task_id } && {
        &&& ev.scope@ == scope
        &&& ev.status@ == status
        &&& ev.branch@ == branch
        &&& ev.executor@ == executor
        &&& ev.title@ == title
        &&& ev.task_id@ == task_id
    }
}

fn fallback_field(captured: &Option<String>, row: &Option<String>, default: &str) -> (r: String)
    ensures
        r@ == spec_fallback(*captured, *row, default@),
{
    match captured {
        Option::Some(v) => v.clone(),
        Option::None => match row {
            Option::Some(v) => v.clone(),
            Option::None => default.to_owned(),
        },
    }
}

/// Validate a record's payload against the attempt rows.
pub fn validate_record(
    payload: &Option<NotificationPayload>,
    attempts: &Vec<AttemptInfo>,
) -> (r: Result<ValidatedEvent, String>)
    ensures
        (match r {
            Result::Ok(ev) => validated_matches(ev, spec_validated(*payload, attempts@)),
            Result::Err(e) => spec_validated(*payload, attempts@) matches PayloadCheck::Rejected {
                error,
            } && e@ == error,
        }),
{
    let p = match payload {
        Option::Some(p) => p,
        Option::None => {
            return Result::Err("missing metadata for omni notification".to_owned());
        },
    };
    let aid = match &p.task_attempt_id {
        Option::Some(aid) => aid,
        Option::None => {
            return Result::Err("metadata missing task_attempt_id".to_owned());
        },
    };
    if !is_valid_uuid(aid.as_str()) {
        let mut e: String = "invalid task_attempt_id UUID: ".to_owned();
        e.append(aid.as_str());
        return Result::Err(e);
    }
    let st = match &p.status {
        Option::Some(st) => st,
        Option::None => {
            return Result::Err("metadata missing status".to_owned());
        },
    };
    let att = match lookup_attempt(attempts, aid.as_str()) {
        Option::Some(att) => att,
        Option::None => {
            return Result::Err("task attempt not found for omni notification".to_owned());
        },
    };
    let scope: String = match &p.project_id {
        Option::Some(pid) => {
            if !is_valid_uuid(pid.as_str()) {
                let mut e: String = "invalid project_id UUID: ".to_owned();
                e.append(pid.as_str());
                return Result::Err(e);
            }
            pid.clone()
        },
        Option::None => match &att.project_id {
            Option::Some(apid) => apid.clone(),
            Option::None => {
                return Result::Err("missing project_id in database row".to_owned());
            },
        },
    };
    Result::Ok(ValidatedEvent {
        scope,
        status: st.clone(),
        branch: fallback_field(&p.branch, &att.branch, "unknown"),
        executor: fallback_field(&p.executor, &att.executor, "unknown"),
        title: att.title.clone(),
        task_id: att.task_id.clone(),
    })
}

/// What the worker decides for a validated record, at the specification
/// level.
pub enum DecisionCheck {
    Skip { reason: Seq<char> },
    Deliver { instance: Seq<char>, summary: Seq<char>, text: Seq<char> },
}

/// The delivery decision under an effective configuration: skipped — never
/// failed — when delivery is disabled for the scope or the host, instance
/// or recipient is missing or the host is empty; otherwise deliver the
/// formatted message through the configured instance.
pub open spec fn spec_decide(
    scope: Seq<char>,
    status: Seq<char>,
    branch: Seq<char>,
    executor: Seq<char>,
    title: Seq<char>,
    task_id: Seq<char>,
    cfg: OmniConfig,
    base_url: Seq<char>,
) -> DecisionCheck {
    if !cfg.enabled {
        DecisionCheck::Skip { reason: "Omni notifications disabled for project"@ }
    } else if cfg.host is None {
        DecisionCheck::Skip { reason: "Omni host not configured"@ }
    } else if cfg.host.unwrap()@.len() == 0 {
        DecisionCheck::Skip { reason: "Omni host configuration empty"@ }
    } else if cfg.instance is None {
        DecisionCheck::Skip { reason: "No Omni instance configured"@ }
    } else if cfg.recipient is None {
        DecisionCheck::Skip { reason: "No recipient configured"@ }
    } else {
        let summary = spec_status_summary(status, executor, branch);
        DecisionCheck::Deliver {
            instance: cfg.instance.unwrap()@,
            summary,
            text: spec_task_message(
                title,
                summary,
                Option::Some(spec_task_url(base_url, scope, task_id)),
            ),
        }
    }
}

/// The worker's decision, as values: either the reason not to deliver, or
/// everything the delivery call needs.
pub enum DeliveryDecision {
    Skip { reason: String },
    Deliver { instance: String, request: SendTextRequest, summary: String },
}

/// The exec decision agrees with the specification's; a delivery carries
/// a request addressed per the configuration.
pub open spec fn decision_matches(d: DeliveryDecision, v: DecisionCheck, cfg: OmniConfig) -> bool {
    match d {
        DeliveryDecision::Skip { reason } => v matches DecisionCheck::Skip { reason: vr }
            && reason@ == vr,
        DeliveryDecision::Deliver { instance, request, summary } => v
            matches DecisionCheck::Deliver { instance: vi, summary: vs, text: vt } && {
            &&& instance@ == vi
            &&& summary@ == vs
            &&& cfg.recipient is Some
            &&& spec_request_shape(request, cfg.recipient.unwrap(), cfg.recipient_type, vt)
        },
    }
}

/// Decide what to do for a validated record under an effective
/// configuration.
pub fn decide_delivery(ev: &ValidatedEvent, cfg: &OmniConfig, base_url: &str) -> (d:
    DeliveryDecision)
    ensures
        decision_matches(
            d,
            spec_decide(
                ev.scope@,
                ev.status@,
                ev.branch@,
                ev.executor@,
                ev.title@,
                ev.task_id@,
                *cfg,
                base_url@,
            ),
            *cfg,
        ),
{
    if !cfg.enabled {
        return DeliveryDecision::Skip {
            reason: "Omni notifications disabled for project".to_owned(),
        };
    }
    let host = match &cfg.host {
        Option::Some(h) => h,
        Option::None => {
            return DeliveryDecision::Skip { reason: "Omni host not configured".to_owned() };
        },
    };
    if host.as_str().is_empty() {
        return DeliveryDecision::Skip { reason: "Omni host configuration empty".to_owned() };
    }
    let instance = match &cfg.instance {
        Option::Some(i) => i,
        Option::None => {
            return DeliveryDecision::Skip { reason: "No Omni instance configured".to_owned() };
        },
    };
    let recipient = match &cfg.recipient {
        Option::Some(rc) => rc,
        Option::None => {
            return DeliveryDecision::Skip { reason: "No recipient configured".to_owned() };
        },
    };
    let summary = format_status_summary(
        ev.status.as_str(),
        ev.executor.as_str(),
        ev.branch.as_str(),
    );
    let url = build_task_url(base_url, ev.scope.as_str(), ev.task_id.as_str());
    let text = format_task_message(ev.title.as_str(), summary.as_str(), Option::Some(url.as_str()));
    let request = build_send_request(recipient, &cfg.recipient_type, text);
    DeliveryDecision::Deliver { instance: instance.clone(), request, summary }
}

/// The terminal outcome of one worker iteration, at the specification
/// level.
pub enum OutcomeCheck {
    Sent { message: Seq<char> },
    Skipped { reason: Seq<char> },
    Failed { error: Seq<char> },
}

/// How a decision and the delivery client's answer settle a record: a
/// skip stays a skip whatever the client would have answered; a delivery
/// is sent exactly when the client reports success, and failed on a
/// transport error or an unsuccessful answer, keeping the client's error
/// text.
pub open spec fn spec_settle(
    d: DecisionCheck,
    outcome: Result<SendTextResponse, String>,
) -> OutcomeCheck {
    match d {
        DecisionCheck::Skip { reason } => OutcomeCheck::Skipped { reason },
        DecisionCheck::Deliver { summary, .. } => match outcome {
            Result::Err(e) => OutcomeCheck::Failed { error: e@ },
            Result::Ok(resp) => if resp.success {
                OutcomeCheck::Sent { message: summary }
            } else {
                OutcomeCheck::Failed {
                    error: match resp.error {
                        Option::Some(e) => e@,
                        Option::None => "delivery reported failure"@,
                    },
                }
            },
        },
    }
}

/// The record outcome, as values.
#[derive(Debug)]
pub enum QueueOutcome {
    Sent { message: String },
    Skipped { reason: String },
    Failed { error: String },
}

/// The exec outcome agrees with the specification's.
pub open spec fn outcome_matches(o: QueueOutcome, v: OutcomeCheck) -> bool {
    match o {
        QueueOutcome::Sent { message } => v matches OutcomeCheck::Sent { message: vm } && message@
            == vm,
        QueueOutcome::Skipped { reason } => v matches OutcomeCheck::Skipped { reason: vr }
            && reason@ == vr,
        QueueOutcome::Failed { error } => v matches OutcomeCheck::Failed { error: ve } && error@
            == ve,
    }
}

/// Settle a decision against the delivery client's answer.
pub fn settle_delivery(
    d: DeliveryDecision,
    outcome: &Result<SendTextResponse, String>,
) -> (o: QueueOutcome)
    ensures
        (match d {
            DeliveryDecision::Skip { reason } => o == QueueOutcome::Skipped { reason },
            DeliveryDecision::Deliver { summary, .. } => match outcome {
                Result::Err(e) => (o matches QueueOutcome::Failed { error } && error@ == e@),
                Result::Ok(resp) => if resp.success {
                    o == QueueOutcome::Sent { message: summary }
                } else {
                    (o matches QueueOutcome::Failed { error } && error@ == (match resp.error {
                        Option::Some(e) => e@,
                        Option::None => "delivery reported failure"@,
                    }))
                },
            },
        }),
{
    match d {
        DeliveryDecision::Skip { reason } => QueueOutcome::Skipped { reason },
        DeliveryDecision::Deliver { summary, .. } => match outcome {
            Result::Err(e) => QueueOutcome::Failed { error: e.clone() },
            Result::Ok(resp) => {
                if resp.success {
                    QueueOutcome::Sent { message: summary }
                } else {
                    match &resp.error {
                        Option::Some(e) => QueueOutcome::Failed { error: e.clone() },
                        Option::None => QueueOutcome::Failed {
                            error: "delivery reported failure".to_owned(),
                        },
                    }
                }
            },
        },
    }
}

/// The terminal outcome one worker iteration owes a record, given the
/// attempt rows, the stored configuration, the base URL and what the
/// delivery client answers when called.
pub open spec fn spec_outcome(
    p_opt: Option<NotificationPayload>,
    attempts: Seq<AttemptInfo>,
    resolver: ConfigResolver,
    base_url: Seq<char>,
    delivery: Result<SendTextResponse, String>,
) -> OutcomeCheck {
    match spec_validated(p_opt, attempts) {
        PayloadCheck::Rejected { error } => OutcomeCheck::Failed { error },
        PayloadCheck::Accepted { scope, status, branch, executor, title, task_id } => spec_settle(
            spec_decide(
                scope,
                status,
                branch,
                executor,
                title,
                task_id,
                resolver.spec_resolved(Option::Some(scope)),
                base_url,
            ),
            delivery,
        ),
    }
}

/// Decide the terminal outcome for one record.
pub fn decide_outcome(
    payload: &Option<NotificationPayload>,
    attempts: &Vec<AttemptInfo>,
    resolver: &ConfigResolver,
    base_url: &str,
    delivery: &Result<SendTextResponse, String>,
) -> (o: QueueOutcome)
    ensures
        outcome_matches(o, spec_outcome(*payload, attempts@, *resolver, base_url@, *delivery)),
{
    let ev = match validate_record(payload, attempts) {
        Result::Err(e) => {
            return QueueOutcome::Failed { error: e };
        },
        Result::Ok(ev) => ev,
    };
    let cfg = resolver.resolve(Option::Some(ev.scope.as_str()));
    let d = decide_delivery(&ev, &cfg, base_url);
    settle_delivery(d, delivery)
}

/// A record never fails for want of configuration: whenever its payload
/// validates, a disabled scope, a missing or empty host, a missing
/// instance or a missing recipient all settle it as skipped — never
/// failed — and the delivery client plays no part in that.
pub proof fn lemma_unconfigured_scope_skips(
    p_opt: Option<NotificationPayload>,
    attempts: Seq<AttemptInfo>,
    resolver: ConfigResolver,
    base_url: Seq<char>,
    delivery: Result<SendTextResponse, String>,
)
    requires
        spec_validated(p_opt, attempts) is Accepted,
        ({
            let cfg = resolver.spec_resolved(
                Option::Some(spec_validated(p_opt, attempts)->Accepted_scope),
            );
            ||| !cfg.enabled
            ||| cfg.host is None
            ||| cfg.host.unwrap()@.len() == 0
            ||| cfg.instance is None
            ||| cfg.recipient is None
        }),
    ensures
        spec_outcome(p_opt, attempts, resolver, base_url, delivery) is Skipped,
        forall|other: Result<SendTextResponse, String>|
            #[trigger] spec_outcome(p_opt, attempts, resolver, base_url, other) == spec_outcome(
                p_opt,
                attempts,
                resolver,
                base_url,
                delivery,
            ),
{
}

/// A disabled scope in particular is skipped, never failed, with the
/// reason naming the disablement.
pub proof fn lemma_disabled_scope_skips(
    p_opt: Option<NotificationPayload>,
    attempts: Seq<AttemptInfo>,
    resolver: ConfigResolver,
    base_url: Seq<char>,
    delivery: Result<SendTextResponse, String>,
)
    requires
        spec_validated(p_opt, attempts) is Accepted,
        !resolver.spec_resolved(
            Option::Some(spec_validated(p_opt, attempts)->Accepted_scope),
        ).enabled,
    ensures
        spec_outcome(p_opt, attempts, resolver, base_url, delivery) == (OutcomeCheck::Skipped {
            reason: "Omni notifications disabled for project"@,
        }),
{
}

/// The outcome a record settles to, written back by one iteration.
pub open spec fn record_settled(
    pre: NotificationRecord,
    post: NotificationRecord,
    out: OutcomeCheck,
    now: u64,
) -> bool {
    &&& post.id == pre.id
    &&& post.kind == pre.kind
    &&& post.recipient == pre.recipient
    &&& post.created_at == pre.created_at
    &&& post.payload == pre.payload
    &&& (match out {
        OutcomeCheck::Sent { message } => {
            &&& post.status == NotificationStatus::Sent
            &&& post.message@ == message
            &&& post.sent_at == Option::Some(now)
            &&& post.error == pre.error
        },
        OutcomeCheck::Skipped { reason } => {
            &&& post.status == NotificationStatus::Skipped
            &&& (post.error matches Option::Some(e) && e@ == reason)
            &&& post.message == pre.message
            &&& post.sent_at == pre.sent_at
        },
        OutcomeCheck::Failed { error } => {
            &&& post.status == NotificationStatus::Failed
            &&& (post.error matches Option::Some(e) && e@ == error)
            &&& post.message == pre.message
            &&& post.sent_at == pre.sent_at
        },
    })
}

/// One worker iteration: take the oldest pending record, claim it with
/// the atomic conditional update, decide, and write the terminal status
/// back; report whether any record was there to process. Exactly the
/// oldest pending record changes, to exactly the outcome the
/// specification owes it; an empty queue changes nothing.
pub fn process_next(
    store: &mut NotificationStore,
    resolver: &ConfigResolver,
    attempts: &Vec<AttemptInfo>,
    base_url: &str,
    delivery: &Result<SendTextResponse, String>,
    now: u64,
) -> (processed: bool)
    requires
        old(store).wf(),
    ensures
        final(store).wf(),
        spec_forward_ok(old(store)@, final(store)@),
        processed == (spec_first_pending(old(store)@) != -1),
        !processed ==> final(store)@ == old(store)@,
        processed ==> ({
            let k = spec_first_pending(old(store)@);
            let out = spec_outcome(old(store)@[k].payload, attempts@, *resolver, base_url@, *delivery);
            &&& final(store)@.len() == old(store)@.len()
            &&& (forall|i: int|
                0 <= i < old(store)@.len() && i != k ==> #[trigger] final(store)@[i] == old(
                    store,
                )@[i])
            &&& record_settled(old(store)@[k], final(store)@[k], out, now)
        }),
{
    let id = match store.oldest_pending() {
        Option::None => {
            return false;
        },
        Option::Some(id) => id,
    };
    proof {
        lemma_first_pending(store@);
        lemma_index_of_unique(store@, id, spec_first_pending(store@));
    }
    let k = match store.index_of(id) {
        Option::None => {
            proof {
                assert(false);
            }
            return false;
        },
        Option::Some(k) => k,
    };
    let payload = clone_opt_payload(&store.record(k).payload);
    let ghost pre = store@;
    let claimed = store.claim(id);
    proof {
        assert(claimed);
        lemma_index_of_unique(store@, id, k as int);
    }
    let outcome = decide_outcome(&payload, attempts, resolver, base_url, delivery);
    let ghost mid = store@;
    match outcome {
        QueueOutcome::Sent { message } => {
            store.finalize_sent(id, message, now);
        },
        QueueOutcome::Skipped { reason } => {
            store.finalize_skipped(id, reason);
        },
        QueueOutcome::Failed { error } => {
            store.finalize_failed(id, error);
        },
    }
    proof {
        lemma_forward_ok_trans(pre, mid, store@);
    }
    true
}

} // verus!
