//! The durable notification queue: an append-only record set with a status
//! column, mutated only through the operations below.
//!
//! The store enforces the status lifecycle: records are inserted
//! `Pending`, move to `Processing` through exactly one successful claim (an
//! atomic conditional update, never a read followed by a write), and end in
//! a terminal status through a conditional finalize. A record is never
//! deleted and its payload is never rewritten.

use vstd::prelude::*;
use crate::status::{status_reach, NotificationStatus};

verus! {

/// The structured facts a capture stores for the worker, all captured
/// atomically with the triggering transition.
pub struct NotificationPayload {
    /// Identifier of the triggering execution event; the deduplication key.
    pub execution_id: String,
    pub task_attempt_id: Option<String>,
    pub status: Option<String>,
    pub executor: Option<String>,
    pub branch: Option<String>,
    pub project_id: Option<String>,
    pub exit_code: Option<i64>,
}

impl Clone for NotificationPayload {
    fn clone(&self) -> (res: Self)
        ensures
            res == *self,
    {
        NotificationPayload {
            execution_id: self.execution_id.clone(),
            task_attempt_id: crate::strutil::clone_opt_string(&self.task_attempt_id),
            status: crate::strutil::clone_opt_string(&self.status),
            executor: crate::strutil::clone_opt_string(&self.executor),
            branch: crate::strutil::clone_opt_string(&self.branch),
            project_id: crate::strutil::clone_opt_string(&self.project_id),
            exit_code: match self.exit_code {
                Option::None => Option::None,
                Option::Some(c) => Option::Some(c),
            },
        }
    }
}

/// A fresh copy of an optional payload.
pub fn clone_opt_payload(o: &Option<NotificationPayload>) -> (r: Option<NotificationPayload>)
    ensures
        r == *o,
{
    match o {
        Option::None => Option::None,
        Option::Some(p) => Option::Some(p.clone()),
    }
}

/// One queued notification.
pub struct NotificationRecord {
    /// Unique identifier, assigned at insert time in insertion order.
    pub id: u64,
    /// Why the notification exists.
    pub kind: String,
    /// Resolved recipient address at time of sending; empty until then.
    pub recipient: String,
    /// Final formatted text; empty until processing completes.
    pub message: String,
    pub status: NotificationStatus,
    /// Failure or skip reason, set only on `Failed` or `Skipped`.
    pub error: Option<String>,
    /// Completion time, set only on `Sent`.
    pub sent_at: Option<u64>,
    /// Insertion time; the queue ordering key.
    pub created_at: u64,
    /// Immutable after insert.
    pub payload: Option<NotificationPayload>,
}

/// The record set. Insertion order is creation order: identifiers grow
/// strictly along the sequence.
pub struct NotificationStore {
    records: Vec<NotificationRecord>,
    next_id: u64,
}

impl View for NotificationStore {
    type V = Seq<NotificationRecord>;

    closed spec fn view(&self) -> Seq<NotificationRecord> {
        self.records@
    }
}

/// Index of the record carrying `id`, or `-1`.
pub open spec fn spec_index_of(s: Seq<NotificationRecord>, id: u64) -> int
    decreases s.len(),
{
    if s.len() == 0 {
        -1
    } else if s[0].id == id {
        0
    } else {
        let r = spec_index_of(s.skip(1), id);
        if r == -1 {
            -1
        } else {
            r + 1
        }
    }
}

/// What `spec_index_of` finds: the first position holding `id`, a valid one
/// when any position holds it.
pub proof fn lemma_index_of(s: Seq<NotificationRecord>, id: u64)
    ensures
        spec_index_of(s, id) == -1 ==> (forall|i: int| 0 <= i < s.len() ==> (#[trigger] s[i]).id
            != id),
        spec_index_of(s, id) != -1 ==> 0 <= spec_index_of(s, id) < s.len() && s[spec_index_of(
            s,
            id,
        )].id == id,
    decreases s.len(),
{
    if s.len() > 0 && s[0].id != id {
        lemma_index_of(s.skip(1), id);
        let r = spec_index_of(s.skip(1), id);
        if r == -1 {
            assert(forall|i: int| 1 <= i < s.len() ==> #[trigger] s[i] == s.skip(1)[i - 1]);
        } else {
            assert(s.skip(1)[r] == s[r + 1]);
        }
    }
}

/// With strictly growing identifiers, a position holding `id` is the one
/// `spec_index_of` finds.
pub proof fn lemma_index_of_unique(s: Seq<NotificationRecord>, id: u64, k: int)
    requires
        forall|i: int, j: int| 0 <= i < j < s.len() ==> (#[trigger] s[i]).id < (#[trigger] s[j]).id,
        0 <= k < s.len(),
        s[k].id == id,
    ensures
        spec_index_of(s, id) == k,
{
    lemma_index_of(s, id);
    let r = spec_index_of(s, id);
    if r == -1 {
        assert(s[k].id != id);
    } else if r < k {
        assert(s[r].id < s[k].id);
    } else if r > k {
        assert(s[k].id < s[r].id);
    }
}

/// Index of the first `Pending` record, or `-1` when none is queued.
pub open spec fn spec_first_pending(s: Seq<NotificationRecord>) -> int
    decreases s.len(),
{
    if s.len() == 0 {
        -1
    } else if s[0].status == NotificationStatus::Pending {
        0
    } else {
        let r = spec_first_pending(s.skip(1));
        if r == -1 {
            -1
        } else {
            r + 1
        }
    }
}

/// What `spec_first_pending` finds: a pending record at the returned
/// position, none before it, and none at all when `-1`.
pub proof fn lemma_first_pending(s: Seq<NotificationRecord>)
    ensures
        spec_first_pending(s) == -1 ==> (forall|i: int| 0 <= i < s.len() ==> (#[trigger] s[i]).status
            != NotificationStatus::Pending),
        spec_first_pending(s) != -1 ==> 0 <= spec_first_pending(s) < s.len() && s[spec_first_pending(
            s,
        )].status == NotificationStatus::Pending && (forall|i: int|
            0 <= i < spec_first_pending(s) ==> (#[trigger] s[i]).status
                != NotificationStatus::Pending),
    decreases s.len(),
{
    if s.len() > 0 && s[0].status != NotificationStatus::Pending {
        lemma_first_pending(s.skip(1));
        let r = spec_first_pending(s.skip(1));
        assert(forall|i: int| 1 <= i < s.len() ==> #[trigger] s[i] == s.skip(1)[i - 1]);
        if r != -1 {
            assert(s.skip(1)[r] == s[r + 1]);
        }
    }
}

/// Store mutations only move each already-present record forward along
/// the status order, and never rewrite its identity, payload or creation
/// time; records are only appended, never removed.
pub open spec fn spec_forward_ok(
    pre: Seq<NotificationRecord>,
    post: Seq<NotificationRecord>,
) -> bool {
    &&& pre.len() <= post.len()
    &&& forall|i: int| 0 <= i < pre.len() ==> {
        &&& (#[trigger] post[i]).id == pre[i].id
        &&& post[i].payload == pre[i].payload
        &&& post[i].created_at == pre[i].created_at
        &&& status_reach(pre[i].status, post[i].status)
    }
}

/// A record can never be observed leaving a terminal status: across any
/// store mutation, a record that was `Sent`, `Skipped` or `Failed` keeps
/// that very status — in particular it never re-enters `Pending` or
/// `Processing`.
pub proof fn lemma_forward_only(
    pre: Seq<NotificationRecord>,
    post: Seq<NotificationRecord>,
    i: int,
)
    requires
        spec_forward_ok(pre, post),
        0 <= i < pre.len(),
        pre[i].status.spec_is_terminal(),
    ensures
        post[i].status == pre[i].status,
{
}

/// Forward-only evolution composes: it holds across any sequence of store
/// mutations, not only across one.
pub proof fn lemma_forward_ok_trans(
    s0: Seq<NotificationRecord>,
    s1: Seq<NotificationRecord>,
    s2: Seq<NotificationRecord>,
)
    requires
        spec_forward_ok(s0, s1),
        spec_forward_ok(s1, s2),
    ensures
        spec_forward_ok(s0, s2),
{
    assert forall|i: int| 0 <= i < s0.len() implies {
        &&& (#[trigger] s2[i]).id == s0[i].id
        &&& s2[i].payload == s0[i].payload
        &&& s2[i].created_at == s0[i].created_at
        &&& status_reach(s0[i].status, s2[i].status)
    } by {
        assert(status_reach(s0[i].status, s1[i].status));
        assert(status_reach(s1[i].status, s2[i].status));
    }
}

/// Whether a claim of `id` succeeds on this record set: the record exists
/// and still stands `Pending`.
pub open spec fn spec_claim_ok(s: Seq<NotificationRecord>, id: u64) -> bool {
    let k = spec_index_of(s, id);
    k != -1 && s[k].status == NotificationStatus::Pending
}

/// The record set after a claim of `id`: unchanged unless the claim
/// succeeds, in which case exactly the claimed record moves to
/// `Processing`.
pub open spec fn spec_claimed(s: Seq<NotificationRecord>, id: u64) -> Seq<NotificationRecord> {
    if spec_claim_ok(s, id) {
        let k = spec_index_of(s, id);
        s.update(
            k,
            (NotificationRecord {
                status: NotificationStatus::Processing,
                ..s[k]
            }),
        )
    } else {
        s
    }
}

/// Two claims of the same record cannot both succeed: whatever the second
/// claimant observes, the first successful claim has already moved the
/// record out of `Pending`.
pub proof fn lemma_claim_exclusive(s: Seq<NotificationRecord>, id: u64)
    ensures
        !(spec_claim_ok(s, id) && spec_claim_ok(spec_claimed(s, id), id)),
{
    if spec_claim_ok(s, id) {
        let k = spec_index_of(s, id);
        lemma_index_of(s, id);
        let post = spec_claimed(s, id);
        lemma_index_of_update_status(s, id, NotificationStatus::Processing);
        assert(post[k].status == NotificationStatus::Processing);
    }
}

/// Updating a record's status leaves `spec_index_of` unchanged.
proof fn lemma_index_of_update_status(s: Seq<NotificationRecord>, id: u64, st: NotificationStatus)
    requires
        spec_index_of(s, id) != -1,
    ensures
        spec_index_of(
            s.update(
                spec_index_of(s, id),
                (NotificationRecord { status: st, ..s[spec_index_of(s, id)] }),
            ),
            id,
        ) == spec_index_of(s, id),
    decreases s.len(),
{
    lemma_index_of(s, id);
    let k = spec_index_of(s, id);
    let post = s.update(k, (NotificationRecord { status: st, ..s[k] }));
    if k == 0 {
        assert(post[0].id == id);
    } else {
        assert(s[0].id != id);
        assert(post[0].id != id);
        lemma_index_of_update_status(s.skip(1), id, st);
        assert(s.skip(1).update(k - 1, (NotificationRecord { status: st, ..s.skip(1)[k - 1] }))
            =~= post.skip(1));
    }
}

/// How many of `n` consecutive claim attempts on the same record succeed.
pub open spec fn spec_claims_won(s: Seq<NotificationRecord>, id: u64, n: nat) -> nat
    decreases n,
{
    if n == 0 {
        0
    } else {
        (if spec_claim_ok(s, id) {
            1nat
        } else {
            0nat
        }) + spec_claims_won(spec_claimed(s, id), id, (n - 1) as nat)
    }
}

/// A failed claim leaves the record set unchanged, so later attempts fail
/// too; a successful claim makes every later attempt fail. Hence among any
/// number of claim attempts on one record, exactly one succeeds when the
/// record starts `Pending`, and none otherwise.
pub proof fn lemma_claims_won_at_most_one(s: Seq<NotificationRecord>, id: u64, n: nat)
    ensures
        spec_claims_won(s, id, n) == if n > 0 && spec_claim_ok(s, id) {
            1nat
        } else {
            0nat
        },
    decreases n,
{
    if n > 0 {
        let post = spec_claimed(s, id);
        lemma_claim_exclusive(s, id);
        if spec_claim_ok(s, id) {
            lemma_claims_won_at_most_one(post, id, (n - 1) as nat);
        } else {
            assert(post =~= s);
            lemma_claims_won_at_most_one(s, id, (n - 1) as nat);
        }
    }
}

impl NotificationStore {
    /// Record identifiers are unique, grow along insertion order, and stay
    /// below the next identifier to be assigned.
    pub open spec fn wf(self) -> bool {
        &&& forall|i: int, j: int|
            0 <= i < j < self@.len() ==> (#[trigger] self@[i]).id < (#[trigger] self@[j]).id
        &&& forall|i: int| 0 <= i < self@.len() ==> (#[trigger] self@[i]).id < self.spec_next_id()
    }

    /// The identifier the next inserted record will carry.
    pub closed spec fn spec_next_id(self) -> u64 {
        self.next_id
    }

    /// An empty record set.
    pub fn new() -> (r: Self)
        ensures
            r@ =~= Seq::<NotificationRecord>::empty(),
            r.wf(),
    {
        NotificationStore { records: Vec::new(), next_id: 0 }
    }

    /// Number of records ever inserted.
    pub fn len(&self) -> (r: usize)
        ensures
            r == self@.len(),
    {
        self.records.len()
    }

    /// The record at a position.
    pub fn record(&self, i: usize) -> (r: &NotificationRecord)
        requires
            i < self@.len(),
        ensures
            *r == self@[i as int],
    {
        &self.records[i]
    }

    /// Position of the record carrying `id`.
    pub fn index_of(&self, id: u64) -> (r: Option<usize>)
        ensures
            (match r {
                Option::None => spec_index_of(self@, id) == -1,
                Option::Some(k) => spec_index_of(self@, id) == k as int,
            }),
    {
        let n = self.records.len();
        let mut i: usize = 0;
        while i < n
            invariant
                n == self@.len(),
                0 <= i <= n,
                forall|j: int| 0 <= j < i ==> (#[trigger] self@[j]).id != id,
            decreases n - i,
        {
            if self.records[i].id == id {
                proof {
                    lemma_index_of_first_hit(self@, id, i as int);
                }
                return Option::Some(i);
            }
            i += 1;
        }
        proof {
            lemma_index_of(self@, id);
        }
        Option::None
    }

    /// Insert one `Pending` record, as the capture mechanism does inside
    /// the transaction that produced the event.
    pub fn enqueue(
        &mut self,
        kind: String,
        payload: Option<NotificationPayload>,
        now: u64,
    ) -> (id: u64)
        requires
            old(self).wf(),
            old(self).spec_next_id() < u64::MAX,
        ensures
            final(self).wf(),
            id == old(self).spec_next_id(),
            final(self).spec_next_id() == old(self).spec_next_id() + 1,
            final(self)@.len() == old(self)@.len() + 1,
            forall|i: int| 0 <= i < old(self)@.len() ==> #[trigger] final(self)@[i] == old(
                self,
            )@[i],
            final(self)@.last().id == id,
            final(self)@.last().kind == kind,
            final(self)@.last().recipient@ == Seq::<char>::empty(),
            final(self)@.last().message@ == Seq::<char>::empty(),
            final(self)@.last().status == NotificationStatus::Pending,
            final(self)@.last().error is None,
            final(self)@.last().sent_at is None,
            final(self)@.last().created_at == now,
            final(self)@.last().payload == payload,
            spec_forward_ok(old(self)@, final(self)@),
    {
        let id = self.next_id;
        let rec = NotificationRecord {
            id,
            kind,
            recipient: String::new(),
            message: String::new(),
            status: NotificationStatus::Pending,
            error: Option::None,
            sent_at: Option::None,
            created_at: now,
            payload,
        };
        self.records.push(rec);
        self.next_id = self.next_id + 1;
        proof {
            assert(forall|i: int|
                0 <= i < old(self)@.len() ==> #[trigger] self@[i] == old(self)@[i]);
        }
        id
    }

    /// The claim: one atomic conditional update that moves the record to
    /// `Processing` only if it still stands `Pending`. A claim that
    /// affects nothing is an expected race outcome, not an error.
    pub fn claim(&mut self, id: u64) -> (claimed: bool)
        requires
            old(self).wf(),
        ensures
            final(self).wf(),
            claimed == spec_claim_ok(old(self)@, id),
            final(self)@ == spec_claimed(old(self)@, id),
            final(self).spec_next_id() == old(self).spec_next_id(),
            spec_forward_ok(old(self)@, final(self)@),
    {
        proof {
            lemma_index_of(self@, id);
        }
        let k = match self.index_of(id) {
            Option::None => {
                return false;
            },
            Option::Some(k) => k,
        };
        if !(self.records[k].status == NotificationStatus::Pending) {
            return false;
        }
        let prev = self.records.remove(k);
        let updated = NotificationRecord { status: NotificationStatus::Processing, ..prev };
        self.records.insert(k, updated);
        proof {
            assert(self@ =~= old(self)@.update(
                k as int,
                (NotificationRecord {
                    status: NotificationStatus::Processing,
                    ..old(self)@[k as int]
                }),
            ));
        }
        true
    }

    /// Conditionally finalize a claimed record as `Sent`, storing the
    /// formatted message and the completion time. Only a `Processing`
    /// record can be finalized; anything else is left untouched.
    pub fn finalize_sent(&mut self, id: u64, message: String, now: u64) -> (applied: bool)
        requires
            old(self).wf(),
        ensures
            final(self).wf(),
            applied == spec_finalize_ok(old(self)@, id),
            !applied ==> final(self)@ == old(self)@,
            applied ==> final(self)@ =~= old(self)@.update(
                spec_index_of(old(self)@, id),
                (NotificationRecord {
                    status: NotificationStatus::Sent,
                    message: message,
                    sent_at: Option::Some(now),
                    ..old(self)@[spec_index_of(old(self)@, id)]
                }),
            ),
            final(self).spec_next_id() == old(self).spec_next_id(),
            spec_forward_ok(old(self)@, final(self)@),
    {
        proof {
            lemma_index_of(self@, id);
        }
        let k = match self.index_of(id) {
            Option::None => {
                return false;
            },
            Option::Some(k) => k,
        };
        if !(self.records[k].status == NotificationStatus::Processing) {
            return false;
        }
        let prev = self.records.remove(k);
        let updated = NotificationRecord {
            status: NotificationStatus::Sent,
            message,
            sent_at: Option::Some(now),
            ..prev
        };
        self.records.insert(k, updated);
        proof {
            assert(self@ =~= old(self)@.update(
                k as int,
                (NotificationRecord {
                    status: NotificationStatus::Sent,
                    message: message,
                    sent_at: Option::Some(now),
                    ..old(self)@[k as int]
                }),
            ));
        }
        true
    }

    /// Conditionally finalize a claimed record as `Skipped`, recording why
    /// delivery was not attempted.
    pub fn finalize_skipped(&mut self, id: u64, reason: String) -> (applied: bool)
        requires
            old(self).wf(),
        ensures
            final(self).wf(),
            applied == spec_finalize_ok(old(self)@, id),
            !applied ==> final(self)@ == old(self)@,
            applied ==> final(self)@ =~= old(self)@.update(
                spec_index_of(old(self)@, id),
                (NotificationRecord {
                    status: NotificationStatus::Skipped,
                    error: Option::Some(reason),
                    ..old(self)@[spec_index_of(old(self)@, id)]
                }),
            ),
            final(self).spec_next_id() == old(self).spec_next_id(),
            spec_forward_ok(old(self)@, final(self)@),
    {
        proof {
            lemma_index_of(self@, id);
        }
        let k = match self.index_of(id) {
            Option::None => {
                return false;
            },
            Option::Some(k) => k,
        };
        if !(self.records[k].status == NotificationStatus::Processing) {
            return false;
        }
        let prev = self.records.remove(k);
        let updated = NotificationRecord {
            status: NotificationStatus::Skipped,
            error: Option::Some(reason),
            ..prev
        };
        self.records.insert(k, updated);
        proof {
            assert(self@ =~= old(self)@.update(
                k as int,
                (NotificationRecord {
                    status: NotificationStatus::Skipped,
                    error: Option::Some(reason),
                    ..old(self)@[k as int]
                }),
            ));
        }
        true
    }

    /// Conditionally finalize a claimed record as `Failed`, recording the
    /// error text. A failed record is terminal: there is no automatic
    /// retry.
    pub fn finalize_failed(&mut self, id: u64, error: String) -> (applied: bool)
        requires
            old(self).wf(),
        ensures
            final(self).wf(),
            applied == spec_finalize_ok(old(self)@, id),
            !applied ==> final(self)@ == old(self)@,
            applied ==> final(self)@ =~= old(self)@.update(
                spec_index_of(old(self)@, id),
                (NotificationRecord {
                    status: NotificationStatus::Failed,
                    error: Option::Some(error),
                    ..old(self)@[spec_index_of(old(self)@, id)]
                }),
            ),
            final(self).spec_next_id() == old(self).spec_next_id(),
            spec_forward_ok(old(self)@, final(self)@),
    {
        proof {
            lemma_index_of(self@, id);
        }
        let k = match self.index_of(id) {
            Option::None => {
                return false;
            },
            Option::Some(k) => k,
        };
        if !(self.records[k].status == NotificationStatus::Processing) {
            return false;
        }
        let prev = self.records.remove(k);
        let updated = NotificationRecord {
            status: NotificationStatus::Failed,
            error: Option::Some(error),
            ..prev
        };
        self.records.insert(k, updated);
        proof {
            assert(self@ =~= old(self)@.update(
                k as int,
                (NotificationRecord {
                    status: NotificationStatus::Failed,
                    error: Option::Some(error),
                    ..old(self)@[k as int]
                }),
            ));
        }
        true
    }

    /// Identifier of the oldest `Pending` record, if any: first by
    /// insertion order, which is creation order.
    pub fn oldest_pending(&self) -> (r: Option<u64>)
        ensures
            (match r {
                Option::None => spec_first_pending(self@) == -1,
                Option::Some(id) => spec_first_pending(self@) != -1 && id == self@[spec_first_pending(
                    self@,
                )].id,
            }),
    {
        let n = self.records.len();
        let mut i: usize = 0;
        while i < n
            invariant
                n == self@.len(),
                0 <= i <= n,
                forall|j: int| 0 <= j < i ==> (#[trigger] self@[j]).status
                    != NotificationStatus::Pending,
            decreases n - i,
        {
            if self.records[i].status == NotificationStatus::Pending {
                proof {
                    lemma_first_pending_hit(self@, i as int);
                }
                return Option::Some(self.records[i].id);
            }
            i += 1;
        }
        proof {
            lemma_first_pending(self@);
        }
        Option::None
    }
}

/// Whether a finalize of `id` applies: the record exists and stands
/// `Processing`.
pub open spec fn spec_finalize_ok(s: Seq<NotificationRecord>, id: u64) -> bool {
    let k = spec_index_of(s, id);
    k != -1 && s[k].status == NotificationStatus::Processing
}

/// When position `i` holds `id` and no earlier position does,
/// `spec_index_of` returns `i`.
proof fn lemma_index_of_first_hit(s: Seq<NotificationRecord>, id: u64, i: int)
    requires
        0 <= i < s.len(),
        s[i].id == id,
        forall|j: int| 0 <= j < i ==> (#[trigger] s[j]).id != id,
    ensures
        spec_index_of(s, id) == i,
    decreases i,
{
    if i == 0 {
    } else {
        assert(s[0].id != id);
        lemma_index_of_first_hit(s.skip(1), id, i - 1);
        assert(s.skip(1)[i - 1] == s[i]);
        assert(forall|j: int| 0 <= j < i - 1 ==> #[trigger] s.skip(1)[j] == s[j + 1]);
    }
}

/// When position `i` is pending and no earlier position is,
/// `spec_first_pending` returns `i`.
proof fn lemma_first_pending_hit(s: Seq<NotificationRecord>, i: int)
    requires
        0 <= i < s.len(),
        s[i].status == NotificationStatus::Pending,
        forall|j: int| 0 <= j < i ==> (#[trigger] s[j]).status != NotificationStatus::Pending,
    ensures
        spec_first_pending(s) == i,
    decreases i,
{
    if i == 0 {
    } else {
        assert(s[0].status != NotificationStatus::Pending);
        lemma_first_pending_hit(s.skip(1), i - 1);
        assert(s.skip(1)[i - 1] == s[i]);
        assert(forall|j: int| 0 <= j < i - 1 ==> #[trigger] s.skip(1)[j] == s[j + 1]);
    }
}

} // verus!
