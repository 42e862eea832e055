//! Laws of the reader-writer lock's queue: how joining it and passing the lock on combine.

use std::sync::Arc;
use tokio::sync::Notify;
use vstd::prelude::*;

use crate::rwlock::{
    advance_spec, granted, idle_has_empty_queue, join_spec, joins_last_group, Current, LockGroup,
};

verus! {

/// The queue after `waiters` queued one after the other, each in a reader group of its own.
pub open spec fn enqueue_all(queue: Seq<LockGroup>, waiters: Seq<Arc<Notify>>) -> Seq<LockGroup>
    decreases waiters.len(),
{
    if waiters.len() == 0 {
        queue
    } else {
        join_spec(enqueue_all(queue, waiters.drop_last()), false, waiters.last())
    }
}

/// The queue after the lock passed on `k` times.
pub open spec fn advance_n(queue: Seq<LockGroup>, k: nat) -> Seq<LockGroup>
    decreases k,
{
    if k == 0 {
        queue
    } else {
        advance_spec(advance_n(queue, (k - 1) as nat)).1
    }
}

/// The reader group of one waiter.
pub open spec fn reader_group(n: Arc<Notify>) -> LockGroup {
    LockGroup { is_writer: false, notify: n }
}

proof fn lemma_enqueue_all_appends(queue: Seq<LockGroup>, waiters: Seq<Arc<Notify>>)
    ensures
        enqueue_all(queue, waiters) == queue + waiters.map_values(|n: Arc<Notify>| reader_group(n)),
    decreases waiters.len(),
{
    if waiters.len() > 0 {
        lemma_enqueue_all_appends(queue, waiters.drop_last());
        let f = |n: Arc<Notify>| reader_group(n);
        assert(waiters.map_values(f) == waiters.drop_last().map_values(f).push(
            reader_group(waiters.last()),
        ));
        assert(queue + waiters.map_values(f) == (queue + waiters.drop_last().map_values(f)).push(
            reader_group(waiters.last()),
        ));
    } else {
        assert(queue + waiters.map_values(|n: Arc<Notify>| reader_group(n)) == queue);
    }
}

proof fn lemma_advance_n_skips(queue: Seq<LockGroup>, k: nat)
    requires
        k <= queue.len(),
    ensures
        advance_n(queue, k) == queue.skip(k as int),
    decreases k,
{
    if k > 0 {
        lemma_advance_n_skips(queue, (k - 1) as nat);
        assert(queue.skip((k - 1) as int).drop_first() == queue.skip(k as int));
    } else {
        assert(queue.skip(0) == queue);
    }
}

/// Joining the queue and passing the lock on commute: whoever joins, the head of the queue is
/// the next to hold the lock, and the queue left behind is the one the joiner would have
/// joined after the hand-over. It fails only where a writer joins the single writer group
/// left in the queue: joined before the hand-over it shares that group's turn.
pub proof fn lemma_join_commutes_with_advance(
    queue: Seq<LockGroup>,
    is_writer: bool,
    fresh: Arc<Notify>,
)
    requires
        queue.len() >= 2 || (queue.len() == 1 && !joins_last_group(queue, is_writer)),
    ensures
        advance_spec(join_spec(queue, is_writer, fresh)) == (
            granted(queue[0]),
            join_spec(advance_spec(queue).1, is_writer, fresh),
        ),
{
    let rest = queue.drop_first();
    if joins_last_group(queue, is_writer) {
        assert(rest.last() == queue.last());
    } else {
        let g = LockGroup { is_writer, notify: fresh };
        assert(queue.push(g)[0] == queue[0]);
        if rest.len() > 0 {
            assert(rest.last() == queue.last());
        }
        assert(queue.push(g).drop_first() == rest.push(g));
    }
}

/// Tasks that queue behind a held lock get it in the order in which they queued: once the
/// groups that were waiting before them and the `i` waiters ahead of them have had their turn,
/// the `i`-th waiter's reader group holds the lock.
pub proof fn lemma_waiters_granted_in_arrival_order(
    queue: Seq<LockGroup>,
    waiters: Seq<Arc<Notify>>,
    i: int,
)
    requires
        0 <= i < waiters.len(),
    ensures
        advance_spec(advance_n(enqueue_all(queue, waiters), (queue.len() + i) as nat)).0
            == Current::Read(waiters[i]),
{
    let all = enqueue_all(queue, waiters);
    let f = |n: Arc<Notify>| reader_group(n);
    lemma_enqueue_all_appends(queue, waiters);
    assert(all.len() == queue.len() + waiters.len());
    lemma_advance_n_skips(all, (queue.len() + i) as nat);
    let rest = all.skip(queue.len() + i);
    assert(rest[0] == all[queue.len() + i]);
    assert(all[queue.len() + i] == waiters.map_values(f)[i]);
}

/// A hand-over leaves the lock idle only with an empty queue, whatever the queue was.
pub proof fn lemma_handover_keeps_idle_queue_empty(queue: Seq<LockGroup>)
    ensures
        idle_has_empty_queue(advance_spec(queue).0, advance_spec(queue).1),
{
}

/// A task that finds the lock free takes it (the holder becomes `taker`); a task that finds it
/// held leaves it so. Either way an idle lock still has an empty queue.
pub proof fn lemma_taking_keeps_idle_queue_empty(
    current: Current,
    queue: Seq<LockGroup>,
    taker: Current,
)
    requires
        idle_has_empty_queue(current, queue),
        !taker.is_idle(),
    ensures
        idle_has_empty_queue(if current.is_idle() { taker } else { current }, queue),
{
}

/// Joining the queue of a held lock keeps an idle lock's queue empty. It fails where the
/// lock is idle when the task joins: the task saw the lock held, the hand-over made it idle in
/// between, and the task then waits in the queue of an idle lock, where no tick reaches it.
pub proof fn lemma_queueing_behind_held_lock_keeps_idle_queue_empty(
    current: Current,
    queue: Seq<LockGroup>,
    is_writer: bool,
    fresh: Arc<Notify>,
)
    requires
        idle_has_empty_queue(current, queue),
        !current.is_idle(),
    ensures
        idle_has_empty_queue(current, join_spec(queue, is_writer, fresh)),
{
}

/// While an idle lock has an empty queue, a task that takes the free lock at once passes
/// nobody who waits.
pub proof fn lemma_free_lock_passes_no_waiter(current: Current, queue: Seq<LockGroup>)
    requires
        idle_has_empty_queue(current, queue),
        current.is_idle(),
    ensures
        queue.len() == 0,
{
}

/// The interleaving that breaks the invariant: a waiter that joins the empty queue of an
/// idle lock waits in the queue of an idle lock.
pub proof fn lemma_queueing_behind_idle_lock_breaks_it(fresh: Arc<Notify>)
    ensures
        !idle_has_empty_queue(Current::Idle, join_spec(Seq::empty(), false, fresh)),
{
    assert(join_spec(Seq::<LockGroup>::empty(), false, fresh).len() == 1);
}

} // verus!
