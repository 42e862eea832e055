//! Decision logic of an asynchronous mutex and of a queue-based reader-writer lock, both of
//! which hand out access through `tokio::sync::Notify`.

pub mod mutex;
pub mod notify;
pub mod queue_laws;
pub mod rwlock;
pub mod tick_laws;
