//! The `tokio::sync::Notify` handles through which the locks wake waiting tasks.

use std::sync::Arc;
use tokio::sync::Notify;
use vstd::prelude::*;

verus! {

/// `tokio::sync::Notify`, declared so that lock state can hold it; its contents stay opaque.
#[verifier::external_type_specification]
#[verifier::external_body]
pub struct ExNotify(Notify);

/// `Notify::new`: a notification channel that holds no permit.
/// Nothing is claimed of the value: its permit and its waiters are not visible here.
#[verifier::external_body]
pub(crate) fn new_notify() -> (n: Notify) {
    Notify::new()
}

/// Which signal a step sent: none, `notify_one` on a `Notify`, or `notify_waiters` on a
/// `Notify`.
#[derive(Debug)]
pub enum Signal {
    Quiet,
    One(Arc<Notify>),
    All(Arc<Notify>),
}

/// The record of the signal that a step sent. Its field is private to this module: a record
/// of a signal is made only by the wrapper that sends it, and the quiet record only by
/// [`Wake::quiet`].
#[derive(Debug)]
pub struct Wake {
    sent: Signal,
}

impl Wake {
    /// The signal this record stands for.
    pub closed spec fn signal(self) -> Signal {
        self.sent
    }

    /// The record of a step that sent no signal.
    pub fn quiet() -> (w: Wake)
        ensures
            w.signal() == Signal::Quiet,
    {
        Wake { sent: Signal::Quiet }
    }

    /// Reads the record.
    pub fn sent(&self) -> (s: &Signal)
        ensures
            *s == self.signal(),
    {
        &self.sent
    }
}

/// `Notify::notify_one`, called once on `n`: wakes the oldest waiting task, or stores the
/// single permit when no task waits. The record returned names the call and the `Notify`;
/// what the call does to the `Notify`'s waiters and permit is not described here.
#[verifier::external_body]
pub(crate) fn wake_one(n: Arc<Notify>) -> (w: Wake)
    ensures
        w.signal() == Signal::One(n),
{
    n.notify_one();
    Wake { sent: Signal::One(n) }
}

/// `Notify::notify_waiters`, called once on `n`: wakes every task that is waiting now and
/// stores no permit. The record returned names the call and the `Notify`; what the call does
/// to the `Notify`'s waiters is not described here.
#[verifier::external_body]
pub(crate) fn wake_all(n: Arc<Notify>) -> (w: Wake)
    ensures
        w.signal() == Signal::All(n),
{
    n.notify_waiters();
    Wake { sent: Signal::All(n) }
}

/// `Arc::strong_count`: how many `Arc`s point at this `Notify` at the moment of the call.
/// Other tasks clone and drop their pointers concurrently, so the number is only claimed to
/// count the pointer `n` itself.
#[verifier::external_body]
pub(crate) fn holder_count(n: &Arc<Notify>) -> (count: usize)
    ensures
        count >= 1,
{
    Arc::strong_count(n)
}

/// `Arc::clone`: a second pointer to the same `Notify`, which the verifier sees as the same value.
#[verifier::external_body]
pub(crate) fn share(n: &Arc<Notify>) -> (r: Arc<Notify>)
    ensures
        r == *n,
{
    n.clone()
}

} // verus!
