//! The scheduling decisions of the queue-based reader-writer lock.
//!
//! The lock keeps two pieces of shared state, each behind its own mutex: which group of
//! tasks holds the lock now ([`Current`]), and the groups that wait for it, first come first
//! served (a `VecDeque` of [`LockGroup`]). Every group owns one `Notify`; a task waits for its
//! turn by awaiting that `Notify`. The functions here are the steps that run while one of the
//! two mutexes is held; the awaiting itself is left to the caller.

use std::collections::VecDeque;
use std::sync::Arc;
use tokio::sync::Notify;
use vstd::prelude::*;

use crate::notify::{holder_count, new_notify, share, wake_all, wake_one, Signal, Wake};

verus! {

/// The group that holds the lock now.
#[derive(Debug)]
pub enum Current {
    /// Nobody holds the lock.
    Idle,
    /// A group of readers holds the lock; the `Notify` is the group's.
    Read(Arc<Notify>),
    /// A writer holds the lock; the `Notify` is the group's.
    Write(Arc<Notify>),
}

impl Current {
    pub open spec fn is_idle(self) -> bool {
        self matches Current::Idle
    }
}

/// A group of tasks that wait together for the lock.
#[derive(Debug)]
pub struct LockGroup {
    pub is_writer: bool,
    pub notify: Arc<Notify>,
}

impl LockGroup {
    pub fn new(is_writer: bool, notify: Arc<Notify>) -> (g: Self)
        ensures
            g.is_writer == is_writer,
            g.notify == notify,
    {
        LockGroup { is_writer, notify }
    }
}

/// What a tick does with the group that holds the lock.
#[derive(Debug, Clone, Copy, PartialEq, Eq, Structural)]
pub enum TickPlan {
    /// Leave everything as it is.
    Keep,
    /// The writer's group is still in use: wake its writer and leave everything as it is.
    WakeHolder,
    /// The group is released: hand the lock to the next group in the queue.
    Advance,
}

/// The plan of a tick, given how many pointers to the holding group's `Notify` exist
/// (the group counts as released when the lock state holds the only one).
pub open spec fn tick_plan_spec(current: Current, holders: usize) -> TickPlan {
    match current {
        Current::Idle => TickPlan::Keep,
        Current::Write(_) => if holders == 1 { TickPlan::Advance } else { TickPlan::WakeHolder },
        Current::Read(_) => if holders == 1 { TickPlan::Advance } else { TickPlan::Keep },
    }
}

/// What holding the lock means for a group at the head of the queue.
pub open spec fn granted(g: LockGroup) -> Current {
    if g.is_writer {
        Current::Write(g.notify)
    } else {
        Current::Read(g.notify)
    }
}

/// A joining task shares the last group exactly when both are writers.
pub open spec fn joins_last_group(queue: Seq<LockGroup>, is_writer: bool) -> bool {
    is_writer && queue.len() > 0 && queue.last().is_writer
}

/// The queue after a task joined it; `fresh` is the `Notify` of a new group, if one is made.
pub open spec fn join_spec(queue: Seq<LockGroup>, is_writer: bool, fresh: Arc<Notify>) -> Seq<
    LockGroup,
> {
    if joins_last_group(queue, is_writer) {
        queue
    } else {
        queue.push(LockGroup { is_writer, notify: fresh })
    }
}

/// The holder and the queue after the lock passed on from a released group.
pub open spec fn advance_spec(queue: Seq<LockGroup>) -> (Current, Seq<LockGroup>) {
    if queue.len() == 0 {
        (Current::Idle, queue)
    } else {
        (granted(queue[0]), queue.drop_first())
    }
}

/// The signal sent when the lock passes on: `notify_one` to a writer group taking it,
/// `notify_waiters` to a reader group taking it, none when the queue is empty.
pub open spec fn advance_wake_spec(queue: Seq<LockGroup>) -> Signal {
    if queue.len() == 0 {
        Signal::Quiet
    } else if queue[0].is_writer {
        Signal::One(queue[0].notify)
    } else {
        Signal::All(queue[0].notify)
    }
}

/// The signal sent by the first half of a tick: `notify_one` to a writer whose group is still
/// in use, none otherwise.
pub open spec fn start_wake_spec(current: Current, plan: TickPlan) -> Signal {
    match current {
        Current::Write(n) => if plan == TickPlan::WakeHolder {
            Signal::One(n)
        } else {
            Signal::Quiet
        },
        _ => Signal::Quiet,
    }
}

/// An idle lock has nobody waiting in its queue.
pub open spec fn idle_has_empty_queue(current: Current, queue: Seq<LockGroup>) -> bool {
    current.is_idle() ==> queue.len() == 0
}

/// No two neighbouring groups of the queue are both writer groups: consecutive writers
/// share one group.
pub open spec fn queue_wf(queue: Seq<LockGroup>) -> bool {
    forall|i: int, j: int|
        0 <= i && j == i + 1 && j < queue.len() ==> !(#[trigger] queue[i].is_writer
            && #[trigger] queue[j].is_writer)
}

/// Decides what a tick does, from the holder and the number of pointers to its `Notify`.
pub fn tick_plan(current: &Current, holders: usize) -> (plan: TickPlan)
    ensures
        plan == tick_plan_spec(*current, holders),
{
    match current {
        Current::Idle => TickPlan::Keep,
        Current::Write(_) => {
            if holders != 1 {
                TickPlan::WakeHolder
            } else {
                TickPlan::Advance
            }
        },
        Current::Read(_) => {
            if holders != 1 {
                TickPlan::Keep
            } else {
                TickPlan::Advance
            }
        },
    }
}

/// What the first half of a tick did: the pointer count it took, the plan made of it, and
/// the signal it sent.
#[derive(Debug)]
pub struct TickStart {
    pub plan: TickPlan,
    pub holders: usize,
    pub wake: Wake,
}

/// Counts the pointers to the holder's `Notify` (`Arc::strong_count` on the holder's `Arc`);
/// an idle lock has no holder and counts none. The count depends on other tasks, so of a
/// holder it is only known that it counts the lock's own pointer.
pub fn count_holders(current: &Current) -> (holders: usize)
    ensures
        current.is_idle() ==> holders == 0,
        !current.is_idle() ==> holders >= 1,
{
    match current {
        Current::Idle => 0,
        Current::Write(n) => holder_count(n),
        Current::Read(n) => holder_count(n),
    }
}

/// The first half of a tick, run with the holder's mutex held: counts the pointers to the
/// holder's `Notify`, makes the plan of [`tick_plan`] from that count, and carries it out as far
/// as the holder goes: a writer whose group is still in use gets one `notify_one`, and
/// nothing else is signalled.
pub fn tick_start(current: &Current) -> (started: TickStart)
    ensures
        current.is_idle() ==> started.holders == 0,
        !current.is_idle() ==> started.holders >= 1,
        started.plan == tick_plan_spec(*current, started.holders),
        started.wake.signal() == start_wake_spec(*current, started.plan),
{
    let holders = count_holders(current);
    let plan = tick_plan(current, holders);
    let wake = match current {
        Current::Write(n) => {
            if let TickPlan::WakeHolder = plan {
                wake_one(share(n))
            } else {
                Wake::quiet()
            }
        },
        _ => Wake::quiet(),
    };
    TickStart { plan, holders, wake }
}

/// The second half of a tick, run with both mutexes held: the group at the head of the queue
/// leaves it and takes the lock, a writer group woken by `notify_one`, a reader group by
/// `notify_waiters`; with an empty queue the lock becomes idle and nothing is signalled.
/// Returns the record of the signal.
pub fn tick_advance(current: &mut Current, queue: &mut VecDeque<LockGroup>) -> (wake: Wake)
    ensures
        (*final(current), final(queue)@) == advance_spec(old(queue)@),
        wake.signal() == advance_wake_spec(old(queue)@),
        idle_has_empty_queue(*final(current), final(queue)@),
        queue_wf(old(queue)@) ==> queue_wf(final(queue)@),
{
    let wake = match queue.pop_front() {
        Some(group) => {
            if group.is_writer {
                let wake = wake_one(share(&group.notify));
                *current = Current::Write(group.notify);
                wake
            } else {
                let wake = wake_all(share(&group.notify));
                *current = Current::Read(group.notify);
                wake
            }
        },
        None => {
            *current = Current::Idle;
            Wake::quiet()
        },
    };
    proof {
        let q = old(queue)@;
        if q.len() > 0 && queue_wf(q) {
            assert forall|i: int, j: int|
                0 <= i && j == i + 1 && j < q.drop_first().len() implies !(
            #[trigger] q.drop_first()[i].is_writer && #[trigger] q.drop_first()[j].is_writer) by {
                assert(q.drop_first()[i] == q[i + 1]);
                assert(q.drop_first()[j] == q[j + 1]);
                assert(!(q[i + 1].is_writer && q[j + 1].is_writer));
            }
        }
    }
    wake
}

/// Joins the queue, run with the queue's mutex held, and returns the `Notify` of the group
/// joined: a writer shares the last group when that group is a writer group too; otherwise a
/// new group with a new `Notify` is put at the back.
pub fn join_queue(queue: &mut VecDeque<LockGroup>, is_writer: bool) -> (notify: Arc<Notify>)
    ensures
        final(queue)@ == join_spec(old(queue)@, is_writer, notify),
        joins_last_group(old(queue)@, is_writer) ==> notify == old(queue)@.last().notify,
        queue_wf(old(queue)@) ==> queue_wf(final(queue)@),
{
    let len = queue.len();
    if len > 0 {
        let last = &queue[len - 1];
        if is_writer && last.is_writer {
            return share(&last.notify);
        }
    }
    let notify = Arc::new(new_notify());
    queue.push_back(LockGroup::new(is_writer, share(&notify)));
    proof {
        let q = old(queue)@;
        let p = queue@;
        assert(!joins_last_group(q, is_writer));
        if queue_wf(q) {
            assert forall|i: int, j: int| 0 <= i && j == i + 1 && j < p.len() implies !(
            #[trigger] p[i].is_writer && #[trigger] p[j].is_writer) by {
                assert(p[i] == q[i]);
                if j < q.len() {
                    assert(p[j] == q[j]);
                } else {
                    assert(p[i] == q.last());
                }
            }
        }
    }
    notify
}

/// How a task that found the lock held queues for it: always in a group of its own, as a
/// reader group, whether the task reads or writes.
pub fn enqueue_waiter(queue: &mut VecDeque<LockGroup>) -> (notify: Arc<Notify>)
    ensures
        final(queue)@ == old(queue)@.push(LockGroup { is_writer: false, notify }),
        queue_wf(old(queue)@) ==> queue_wf(final(queue)@),
{
    join_queue(queue, false)
}

/// The first step of a write, run with the holder's mutex held: a free lock is taken at once
/// by a new writer group (`true`); a held lock is left as it is and `false` tells the writer
/// to queue.
pub fn begin_write(current: &mut Current) -> (granted: bool)
    ensures
        granted == old(current).is_idle(),
        granted ==> *final(current) is Write,
        !granted ==> *final(current) == *old(current),
{
    if matches!(current, Current::Idle) {
        *current = Current::Write(Arc::new(new_notify()));
        true
    } else {
        false
    }
}

/// The first step of a read, run with the holder's mutex held: a free lock is taken at once by
/// a new reader group (`true`); a held lock is left as it is and `false` tells the reader to
/// queue.
pub fn begin_read(current: &mut Current) -> (granted: bool)
    ensures
        granted == old(current).is_idle(),
        granted ==> *final(current) is Read,
        !granted ==> *final(current) == *old(current),
{
    if matches!(current, Current::Idle) {
        *current = Current::Read(Arc::new(new_notify()));
        true
    } else {
        false
    }
}

} // verus!
