//! The access channel of the asynchronous mutex.
//!
//! A mutex hands its one access permit around through a `Notify`: a new mutex stores the
//! permit, `lock` waits for it, and a guard that goes away hands it back.

use std::sync::Arc;
use tokio::sync::Notify;
use vstd::prelude::*;

use crate::notify::{new_notify, share, wake_one, Signal, Wake};

verus! {

/// The access channel of a new mutex: a new `Notify` on which `notify_one` is called once,
/// so that it holds the permit and the first `lock` passes at once. Returned with the record
/// of that call.
pub fn open_access() -> (opened: (Arc<Notify>, Wake))
    ensures
        opened.1.signal() == Signal::One(opened.0),
{
    let access = Arc::new(new_notify());
    let wake = wake_one(share(&access));
    (access, wake)
}

/// Hands the access back when a guard goes away: one `notify_one` on the mutex's `Notify`,
/// which wakes the next waiting task or stores the permit for the next `lock`. Returns the
/// record of that call.
pub fn hand_back(access: &Arc<Notify>) -> (wake: Wake)
    ensures
        wake.signal() == Signal::One(*access),
{
    wake_one(share(access))
}

/// What `lock` reports of its wait, in whole milliseconds: nothing when the permit came at
/// once, the time waited otherwise.
pub fn wait_report(elapsed_ms: u128) -> (report: Option<u128>)
    ensures
        report == (if elapsed_ms > 0 {
            Some(elapsed_ms)
        } else {
            None
        }),
{
    if elapsed_ms > 0 {
        Some(elapsed_ms)
    } else {
        None
    }
}

} // verus!
