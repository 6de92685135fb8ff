//! The delivery state machine of a queue record.
//!
//! A record is born `Pending`, is moved to `Processing` by exactly one
//! successful claim, and ends in one of the terminal states `Sent`,
//! `Skipped` or `Failed`. No other transition is allowed.

use vstd::prelude::*;

verus! {

/// Delivery state of a queued notification record.
#[derive(Clone, Copy, Debug, PartialEq, Eq, Structural)]
pub enum NotificationStatus {
    Pending,
    Processing,
    Sent,
    Skipped,
    Failed,
}

impl NotificationStatus {
    /// A terminal status admits no further transition.
    pub open spec fn spec_is_terminal(self) -> bool {
        match self {
            NotificationStatus::Sent => true,
            NotificationStatus::Skipped => true,
            NotificationStatus::Failed => true,
            _ => false,
        }
    }

    #[verifier::when_used_as_spec(spec_is_terminal)]
    pub fn is_terminal(self) -> (r: bool)
        ensures
            r == self.spec_is_terminal(),
    {
        match self {
            NotificationStatus::Sent => true,
            NotificationStatus::Skipped => true,
            NotificationStatus::Failed => true,
            _ => false,
        }
    }
}

/// The forward-only transition relation on record statuses: a status may
/// stay where it is, a pending record may be claimed, and a claimed record
/// may be finalized; nothing else.
pub open spec fn status_step(from: NotificationStatus, to: NotificationStatus) -> bool {
    ||| from == to
    ||| (from == NotificationStatus::Pending && to == NotificationStatus::Processing)
    ||| (from == NotificationStatus::Processing && to.spec_is_terminal())
}

/// A terminal status never steps anywhere else.
pub proof fn lemma_terminal_is_frozen(from: NotificationStatus, to: NotificationStatus)
    requires
        from.spec_is_terminal(),
        status_step(from, to),
    ensures
        to == from,
{
}

/// The forward order on statuses: what a status may become across any
/// number of allowed transitions. `Pending` may become anything later in
/// the lifecycle, `Processing` may become terminal, a terminal status only
/// stays itself.
pub open spec fn status_reach(from: NotificationStatus, to: NotificationStatus) -> bool {
    ||| from == to
    ||| (from == NotificationStatus::Pending && to != NotificationStatus::Pending)
    ||| (from == NotificationStatus::Processing && to.spec_is_terminal())
}

/// A single allowed transition stays within the forward order.
pub proof fn lemma_step_implies_reach(from: NotificationStatus, to: NotificationStatus)
    requires
        status_step(from, to),
    ensures
        status_reach(from, to),
{
}

/// The forward order is transitive: chaining allowed transitions never
/// leaves it.
pub proof fn lemma_reach_trans(
    a: NotificationStatus,
    b: NotificationStatus,
    c: NotificationStatus,
)
    requires
        status_reach(a, b),
        status_reach(b, c),
    ensures
        status_reach(a, c),
{
}

} // verus!
