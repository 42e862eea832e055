//! Laws of a tick of the reader-writer lock: when the lock passes on, and whom the hand-over
//! signals.

use std::sync::Arc;
use tokio::sync::Notify;
use vstd::prelude::*;

use crate::notify::Signal;
use crate::rwlock::{advance_spec, advance_wake_spec, tick_plan_spec, Current, LockGroup, TickPlan};

verus! {

/// A tick passes a held lock on exactly when the pointer count of the holder's `Notify` is 1
/// (only the lock state still points at it). While the group is still in use, a reader group
/// is kept as it is and a writer is woken instead; an idle lock is always kept.
pub proof fn lemma_tick_advances_exactly_when_released(current: Current, holders: usize)
    ensures
        (tick_plan_spec(current, holders) == TickPlan::Advance) <==> (!current.is_idle()
            && holders == 1),
        current is Read && holders != 1 ==> tick_plan_spec(current, holders) == TickPlan::Keep,
        current is Write && holders != 1 ==> tick_plan_spec(current, holders)
            == TickPlan::WakeHolder,
        current.is_idle() ==> tick_plan_spec(current, holders) == TickPlan::Keep,
{
}

/// The plan of a tick depends on the pointer count only through whether it is 1: any two
/// counts other than 1 give the same plan, whatever the number of tasks still in the group.
pub proof fn lemma_tick_plan_ignores_how_many_use_the_group(
    current: Current,
    holders: usize,
    others: usize,
)
    requires
        holders != 1,
        others != 1,
    ensures
        tick_plan_spec(current, holders) == tick_plan_spec(current, others),
{
}

/// The hand-over signals exactly the group that takes the lock: a writer taking it gets
/// `notify_one` on its own `Notify`, a reader group gets `notify_waiters` on its own `Notify`,
/// and a lock that becomes idle signals nobody.
pub proof fn lemma_handover_signals_the_new_holder(queue: Seq<LockGroup>)
    ensures
        forall|n: Arc<Notify>|
            advance_spec(queue).0 == Current::Write(n) ==> advance_wake_spec(queue)
                == Signal::One(n),
        forall|n: Arc<Notify>|
            advance_spec(queue).0 == Current::Read(n) ==> advance_wake_spec(queue)
                == Signal::All(n),
        advance_spec(queue).0 == Current::Idle ==> advance_wake_spec(queue) == Signal::Quiet,
{
}

/// Whenever the head of the queue is a writer group, the hand-over sends `notify_one` to that
/// group's `Notify`; `notify_waiters` goes only to a reader group at the head.
pub proof fn lemma_handover_wakes_a_writer_head_with_notify_one(queue: Seq<LockGroup>)
    ensures
        queue.len() > 0 && queue[0].is_writer ==> advance_wake_spec(queue) == Signal::One(
            queue[0].notify,
        ),
        forall|n: Arc<Notify>|
            advance_wake_spec(queue) == Signal::All(n) ==> queue.len() > 0 && !queue[0].is_writer
                && n == queue[0].notify,
{
}

/// Who takes the lock at a hand-over, and how that group is signalled, does not depend on
/// the groups that wait behind the head of the queue.
pub proof fn lemma_handover_ignores_the_groups_behind(
    queue: Seq<LockGroup>,
    behind: Seq<LockGroup>,
)
    requires
        queue.len() > 0,
    ensures
        advance_spec(queue + behind).0 == advance_spec(queue).0,
        advance_wake_spec(queue + behind) == advance_wake_spec(queue),
{
    assert((queue + behind)[0] == queue[0]);
}

} // verus!
