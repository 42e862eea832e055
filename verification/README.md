# async_lock

An asynchronous mutex and a queue-based reader-writer lock for tokio, whose scheduling
decisions are verified with Verus. Each step also returns a record of the `Notify` it
signalled and how (`notify_one` or `notify_waiters`); such a record can be made only by the
trusted wrapper that sends the signal, so a contract over it says that the call was made. What a signal then does to a `Notify`'s waiters and permit is tokio's,
and is not verified here.

- `src/` is the verified library: the access channel of the mutex (`mutex.rs`), the steps
  of the reader-writer lock taken under its state mutexes (`rwlock.rs`), laws about its
  queue (`queue_laws.rs`), and the trusted items that call `tokio::sync::Notify` and
  `std::sync::Arc` (`notify.rs`).
- `app/` holds the lock types themselves (their values live in `UnsafeCell`s), the
  background task that passes the reader-writer lock on, and a benchmark program.
- `tests/` runs the library's functions on concrete values.
